//! Who may use the SPINOR flash server, and when.
//!
//! Access to the flash is what a persistent rootkit would want, so the server
//! guards it: a process registers a SoC token early in boot (only the first
//! claim counts), the token holder can write-protect the staging gateware,
//! clients take an exclusive lock for their operations, and a suspend may only
//! happen while no operation is in progress.
use vstd::prelude::*;
use crate::spinor_write::SpinorError;

verus! {

/// Start of the SoC gateware region of the flash.
pub const SOC_REGION_LOC: u32 = 0x0000_0000;

/// Start of the staging gateware area inside the SoC region.
pub const SOC_STAGING_GW_LOC: u32 = 0x0028_0000;

/// Start of the loader, which ends the SoC region.
pub const LOADER_LOC: u32 = 0x0050_0000;

/// Number of ECC error addresses that the server keeps.
pub const ECC_SLOTS: usize = 4;

/// The state of the SPINOR server's access control.
#[derive(Clone, Copy, Debug)]
pub struct SpinorAccess {
    /// Token of the process that owns the SoC region, once registered.
    pub soc_token: Option<[u32; 4]>,
    /// Holder of the exclusive lock, if any.
    pub client_id: Option<[u32; 4]>,
    /// Whether the staging gateware is write-protected as well.
    pub staging_write_protect: bool,
    /// The first few ECC error addresses reported.
    pub ecc_errors: [Option<u32>; 4],
    /// A flash operation is in progress (suspends must wait).
    pub op_in_progress: bool,
    /// A suspend is pending (new operations must wait).
    pub suspend_pending: bool,
    /// The last suspend/resume cycle failed.
    pub suspend_failure: bool,
}

/// Two identifiers are the same four words.
pub open spec fn same_id(a: [u32; 4], b: [u32; 4]) -> bool {
    a@ == b@
}

/// Exactly one of these holds: the exclusive lock is held, or no operation is
/// in progress.
pub open spec fn access_wf(s: SpinorAccess) -> bool {
    s.client_id is Some <==> s.op_in_progress
}

/// Whether a write starting at `start` touches the part of the SoC region that
/// only the token holder may write: the main gateware always, and the staging
/// gateware too while it is write-protected.
pub open spec fn is_protected_start(staging_write_protect: bool, start: u32) -> bool {
    if staging_write_protect {
        SOC_REGION_LOC <= start < LOADER_LOC
    } else {
        SOC_REGION_LOC <= start < SOC_STAGING_GW_LOC
    }
}

/// The verdict on a write request from `id` at `start`.
pub open spec fn write_verdict(s: SpinorAccess, id: [u32; 4], start: u32) -> Result<(), SpinorError> {
    match s.soc_token {
        None => Err(SpinorError::AccessDenied),
        Some(token) => {
            if is_protected_start(s.staging_write_protect, start) && !same_id(token, id) {
                Err(SpinorError::AccessDenied)
            } else {
                match s.client_id {
                    None => Err(SpinorError::NoId),
                    Some(holder) => if same_id(holder, id) {
                        Ok(())
                    } else {
                        Err(SpinorError::IdMismatch)
                    },
                }
            }
        },
    }
}

/// The slot that the next ECC error address goes to: the first empty one.
pub open spec fn first_empty_slot(slots: Seq<Option<u32>>) -> Option<int> {
    if slots[0] is None {
        Some(0)
    } else if slots[1] is None {
        Some(1)
    } else if slots[2] is None {
        Some(2)
    } else if slots[3] is None {
        Some(3)
    } else {
        None
    }
}

/// Nothing but the fields named by the operation changes.
pub open spec fn same_locks(a: SpinorAccess, b: SpinorAccess) -> bool {
    &&& a.client_id == b.client_id
    &&& a.op_in_progress == b.op_in_progress
    &&& a.suspend_pending == b.suspend_pending
    &&& a.suspend_failure == b.suspend_failure
}

/// The SoC token, protection flag and ECC log are untouched.
pub open spec fn same_registry(a: SpinorAccess, b: SpinorAccess) -> bool {
    &&& a.soc_token == b.soc_token
    &&& a.staging_write_protect == b.staging_write_protect
    &&& a.ecc_errors@ == b.ecc_errors@
}

/// What a request for the exclusive lock does.
pub open spec fn exclusive_outcome(before: SpinorAccess, id: [u32; 4], granted: bool, after: SpinorAccess) -> bool {
    &&& granted == (before.soc_token is Some && before.client_id is None && !before.suspend_pending)
    &&& granted ==> after.client_id == Some(id) && after.op_in_progress && !after.suspend_failure
        && after.suspend_pending == before.suspend_pending
    &&& !granted ==> same_locks(before, after)
    &&& same_registry(before, after)
}

/// What a request for the suspend lock does.
pub open spec fn suspend_lock_outcome(before: SpinorAccess, granted: bool, after: SpinorAccess) -> bool {
    &&& granted == (before.client_id is None && !before.op_in_progress)
    &&& granted ==> after.suspend_pending
    &&& !granted ==> after.suspend_pending == before.suspend_pending
    &&& after.client_id == before.client_id
    &&& after.op_in_progress == before.op_in_progress
    &&& after.suspend_failure == before.suspend_failure
    &&& same_registry(before, after)
}

/// The access-control state as a mathematical value.
pub struct AccessState {
    pub soc_token: Option<[u32; 4]>,
    pub client_id: Option<[u32; 4]>,
    pub staging_write_protect: bool,
    pub ecc_errors: Seq<Option<u32>>,
    pub op_in_progress: bool,
    pub suspend_pending: bool,
    pub suspend_failure: bool,
}

impl View for SpinorAccess {
    type V = AccessState;

    open spec fn view(&self) -> AccessState {
        AccessState {
            soc_token: self.soc_token,
            client_id: self.client_id,
            staging_write_protect: self.staging_write_protect,
            ecc_errors: self.ecc_errors@,
            op_in_progress: self.op_in_progress,
            suspend_pending: self.suspend_pending,
            suspend_failure: self.suspend_failure,
        }
    }
}

/// A request to the access control: a message to the server, or a step of
/// the suspend/resume thread.
#[derive(Clone, Copy, Debug)]
pub enum AccessRequest {
    RegisterSocToken([u32; 4]),
    SetStagingWriteProtect([u32; 4]),
    ClearStagingWriteProtect([u32; 4]),
    AcquireExclusive([u32; 4]),
    ReleaseExclusive,
    AcquireSuspendLock,
    ReleaseSuspendLock,
    /// The suspend/resume thread was told that a suspend is coming.
    SuspendRequested,
    /// The suspend/resume cycle is over; whether it succeeded.
    SuspendFinished(bool),
    EccError(u32),
}

/// `id` is the registered SoC token.
pub open spec fn is_token_holder(s: AccessState, id: [u32; 4]) -> bool {
    match s.soc_token {
        Some(t) => same_id(t, id),
        None => false,
    }
}

/// The exclusive lock can be given out: a token is registered, nobody holds
/// the lock and no suspend is pending.
pub open spec fn exclusive_grantable(s: AccessState) -> bool {
    s.soc_token is Some && s.client_id is None && !s.suspend_pending
}

/// The suspend lock can be given out: nobody holds the exclusive lock and no
/// operation is in progress.
pub open spec fn suspend_grantable(s: AccessState) -> bool {
    s.client_id is None && !s.op_in_progress
}

/// The state after one request.
pub open spec fn access_next(s: AccessState, r: AccessRequest) -> AccessState {
    match r {
        AccessRequest::RegisterSocToken(id) => AccessState {
            soc_token: if s.soc_token is None {
                Some(id)
            } else {
                s.soc_token
            },
            ..s
        },
        AccessRequest::SetStagingWriteProtect(id) => if is_token_holder(s, id) {
            AccessState { staging_write_protect: true, ..s }
        } else {
            s
        },
        AccessRequest::ClearStagingWriteProtect(id) => if is_token_holder(s, id) {
            AccessState { staging_write_protect: false, ..s }
        } else {
            s
        },
        AccessRequest::AcquireExclusive(id) => if exclusive_grantable(s) {
            AccessState { client_id: Some(id), op_in_progress: true, suspend_failure: false, ..s }
        } else {
            s
        },
        AccessRequest::ReleaseExclusive => AccessState { client_id: None, op_in_progress: false, ..s },
        AccessRequest::AcquireSuspendLock => if suspend_grantable(s) {
            AccessState { suspend_pending: true, ..s }
        } else {
            s
        },
        AccessRequest::ReleaseSuspendLock => AccessState { suspend_pending: false, ..s },
        AccessRequest::SuspendRequested => AccessState { suspend_pending: true, ..s },
        AccessRequest::SuspendFinished(ok) => AccessState {
            suspend_failure: !ok,
            suspend_pending: false,
            ..s
        },
        AccessRequest::EccError(a) => match first_empty_slot(s.ecc_errors) {
            Some(i) => AccessState { ecc_errors: s.ecc_errors.update(i, Some(a)), ..s },
            None => s,
        },
    }
}

/// The answer to a request: whether a lock was granted, or an ECC address
/// was kept; other requests are always answered `true`.
pub open spec fn access_answer(s: AccessState, r: AccessRequest) -> bool {
    match r {
        AccessRequest::AcquireExclusive(_) => exclusive_grantable(s),
        AccessRequest::AcquireSuspendLock => suspend_grantable(s),
        AccessRequest::EccError(_) => first_empty_slot(s.ecc_errors) is Some,
        _ => true,
    }
}

/// The state after the first `i` requests of `reqs`.
pub open spec fn state_after(s0: AccessState, reqs: Seq<AccessRequest>, i: nat) -> AccessState
    decreases i,
{
    if i == 0 {
        s0
    } else {
        access_next(state_after(s0, reqs, (i - 1) as nat), reqs[i - 1])
    }
}

/// The identifier of the first `RegisterSocToken` among the first `i`
/// requests, if there is one.
pub open spec fn first_registration(reqs: Seq<AccessRequest>, i: nat) -> Option<[u32; 4]>
    decreases i,
{
    if i == 0 {
        None
    } else {
        match first_registration(reqs, (i - 1) as nat) {
            Some(id) => Some(id),
            None => match reqs[i - 1] {
                AccessRequest::RegisterSocToken(id) => Some(id),
                _ => None,
            },
        }
    }
}

/// The addresses of the `EccError` reports among the first `i` requests, in
/// order.
pub open spec fn ecc_reports(reqs: Seq<AccessRequest>, i: nat) -> Seq<u32>
    decreases i,
{
    if i == 0 {
        Seq::empty()
    } else {
        let before = ecc_reports(reqs, (i - 1) as nat);
        match reqs[i - 1] {
            AccessRequest::EccError(a) => before.push(a),
            _ => before,
        }
    }
}

fn ids_equal(a: &[u32; 4], b: &[u32; 4]) -> (r: bool)
    ensures
        r == same_id(*a, *b),
{
    let r = a[0] == b[0] && a[1] == b[1] && a[2] == b[2] && a[3] == b[3];
    proof {
        if r {
            assert(a@ =~= b@);
        } else {
            assert(a@ != b@) by {
                if a[0] != b[0] {
                    assert(a@[0] != b@[0]);
                } else if a[1] != b[1] {
                    assert(a@[1] != b@[1]);
                } else if a[2] != b[2] {
                    assert(a@[2] != b@[2]);
                } else {
                    assert(a@[3] != b@[3]);
                }
            }
        }
    }
    r
}

impl SpinorAccess {
    /// The state at boot: nothing registered, locked or pending.
    pub fn new() -> (s: SpinorAccess)
        ensures
            s.soc_token is None,
            s.client_id is None,
            !s.staging_write_protect,
            s.ecc_errors@ == seq![None::<u32>, None, None, None],
            !s.op_in_progress,
            !s.suspend_pending,
            !s.suspend_failure,
            access_wf(s),
    {
        SpinorAccess {
            soc_token: None,
            client_id: None,
            staging_write_protect: false,
            ecc_errors: [None, None, None, None],
            op_in_progress: false,
            suspend_pending: false,
            suspend_failure: false,
        }
    }

    /// Registers the SoC token; only the first process to claim it gets it.
    pub fn register_soc_token(&mut self, id: [u32; 4])
        ensures
            final(self)@ == access_next(old(self)@, AccessRequest::RegisterSocToken(id)),
            final(self).soc_token == (match old(self).soc_token {
                None => Some(id),
                Some(t) => Some(t),
            }),
            final(self).staging_write_protect == old(self).staging_write_protect,
            final(self).ecc_errors@ == old(self).ecc_errors@,
            same_locks(*old(self), *final(self)),
            access_wf(*old(self)) ==> access_wf(*final(self)),
    {
        if self.soc_token.is_none() {
            self.soc_token = Some(id);
        }
    }

    /// Sets (`protect`) or clears the staging write protection; only the
    /// holder of the SoC token may, and the request is ignored otherwise.
    pub fn set_staging_write_protect(&mut self, id: [u32; 4], protect: bool)
        ensures
            final(self)@ == access_next(
                old(self)@,
                if protect {
                    AccessRequest::SetStagingWriteProtect(id)
                } else {
                    AccessRequest::ClearStagingWriteProtect(id)
                },
            ),
            final(self).staging_write_protect == (match old(self).soc_token {
                Some(t) => if same_id(t, id) {
                    protect
                } else {
                    old(self).staging_write_protect
                },
                None => old(self).staging_write_protect,
            }),
            final(self).soc_token == old(self).soc_token,
            final(self).ecc_errors@ == old(self).ecc_errors@,
            same_locks(*old(self), *final(self)),
            access_wf(*old(self)) ==> access_wf(*final(self)),
    {
        if let Some(token) = self.soc_token {
            if ids_equal(&token, &id) {
                self.staging_write_protect = protect;
            }
        }
    }

    /// Gives `id` the exclusive lock, which also holds off suspends. Refused
    /// until a SoC token is registered, while the lock is held, and while a
    /// suspend is pending.
    pub fn acquire_exclusive(&mut self, id: [u32; 4]) -> (granted: bool)
        ensures
            final(self)@ == access_next(old(self)@, AccessRequest::AcquireExclusive(id)),
            granted == access_answer(old(self)@, AccessRequest::AcquireExclusive(id)),
            exclusive_outcome(*old(self), id, granted, *final(self)),
            access_wf(*old(self)) ==> access_wf(*final(self)),
    {
        if self.soc_token.is_none() {
            return false;
        }
        if self.client_id.is_none() && !self.suspend_pending {
            self.op_in_progress = true;
            self.client_id = Some(id);
            self.suspend_failure = false;
            true
        } else {
            false
        }
    }

    /// Releases the exclusive lock, whoever holds it.
    pub fn release_exclusive(&mut self)
        ensures
            final(self)@ == access_next(old(self)@, AccessRequest::ReleaseExclusive),
            final(self).client_id is None,
            !final(self).op_in_progress,
            final(self).suspend_pending == old(self).suspend_pending,
            final(self).suspend_failure == old(self).suspend_failure,
            same_registry(*old(self), *final(self)),
            access_wf(*final(self)),
    {
        self.client_id = None;
        self.op_in_progress = false;
    }

    /// Takes the suspend lock, which holds off flash operations; refused while
    /// the exclusive lock is held or an operation is in progress.
    pub fn acquire_suspend_lock(&mut self) -> (granted: bool)
        ensures
            final(self)@ == access_next(old(self)@, AccessRequest::AcquireSuspendLock),
            granted == access_answer(old(self)@, AccessRequest::AcquireSuspendLock),
            suspend_lock_outcome(*old(self), granted, *final(self)),
            access_wf(*old(self)) ==> access_wf(*final(self)),
    {
        if self.client_id.is_none() && !self.op_in_progress {
            self.suspend_pending = true;
            true
        } else {
            false
        }
    }

    /// Releases the suspend lock.
    pub fn release_suspend_lock(&mut self)
        ensures
            final(self)@ == access_next(old(self)@, AccessRequest::ReleaseSuspendLock),
            !final(self).suspend_pending,
            final(self).client_id == old(self).client_id,
            final(self).op_in_progress == old(self).op_in_progress,
            final(self).suspend_failure == old(self).suspend_failure,
            same_registry(*old(self), *final(self)),
            access_wf(*old(self)) ==> access_wf(*final(self)),
    {
        self.suspend_pending = false;
    }

    /// A system suspend has been requested: new operations are held off until
    /// it is over.
    pub fn begin_suspend(&mut self)
        ensures
            final(self)@ == access_next(old(self)@, AccessRequest::SuspendRequested),
            final(self).suspend_pending,
            final(self).client_id == old(self).client_id,
            final(self).op_in_progress == old(self).op_in_progress,
            final(self).suspend_failure == old(self).suspend_failure,
            same_registry(*old(self), *final(self)),
            access_wf(*old(self)) ==> access_wf(*final(self)),
    {
        self.suspend_pending = true;
    }

    /// Whether the pending suspend may go ahead: no operation is in progress.
    pub fn suspend_may_proceed(&self) -> (ready: bool)
        ensures
            ready == !self.op_in_progress,
    {
        !self.op_in_progress
    }

    /// The system has resumed; `resumed` tells whether the suspend/resume
    /// cycle succeeded.
    pub fn end_suspend(&mut self, resumed: bool)
        ensures
            final(self)@ == access_next(old(self)@, AccessRequest::SuspendFinished(resumed)),
            !final(self).suspend_pending,
            final(self).suspend_failure == !resumed,
            final(self).client_id == old(self).client_id,
            final(self).op_in_progress == old(self).op_in_progress,
            same_registry(*old(self), *final(self)),
            access_wf(*old(self)) ==> access_wf(*final(self)),
    {
        self.suspend_failure = !resumed;
        self.suspend_pending = false;
    }

    /// Decides whether `id` may write at `start`: the SoC token must be
    /// registered; writes into the protected part of the SoC region need the
    /// token; and the writer must hold the exclusive lock.
    pub fn authorize_write(&self, id: [u32; 4], start: u32) -> (verdict: Result<(), SpinorError>)
        ensures
            verdict == write_verdict(*self, id, start),
    {
        match self.soc_token {
            None => Err(SpinorError::AccessDenied),
            Some(token) => {
                let protected = if self.staging_write_protect {
                    SOC_REGION_LOC <= start && start < LOADER_LOC
                } else {
                    SOC_REGION_LOC <= start && start < SOC_STAGING_GW_LOC
                };
                if protected && !ids_equal(&token, &id) {
                    Err(SpinorError::AccessDenied)
                } else {
                    match self.client_id {
                        None => Err(SpinorError::NoId),
                        Some(holder) => if ids_equal(&holder, &id) {
                            Ok(())
                        } else {
                            Err(SpinorError::IdMismatch)
                        },
                    }
                }
            },
        }
    }

    /// Records an ECC error address in the first empty slot; tells whether
    /// there was one.
    pub fn record_ecc_error(&mut self, address: u32) -> (saved: bool)
        ensures
            final(self)@ == access_next(old(self)@, AccessRequest::EccError(address)),
            saved == access_answer(old(self)@, AccessRequest::EccError(address)),
            saved == (first_empty_slot(old(self).ecc_errors@) is Some),
            match first_empty_slot(old(self).ecc_errors@) {
                Some(i) => final(self).ecc_errors@ == old(self).ecc_errors@.update(i, Some(address)),
                None => final(self).ecc_errors@ == old(self).ecc_errors@,
            },
            final(self).soc_token == old(self).soc_token,
            final(self).staging_write_protect == old(self).staging_write_protect,
            same_locks(*old(self), *final(self)),
            access_wf(*old(self)) ==> access_wf(*final(self)),
    {
        let mut i: usize = 0;
        while i < ECC_SLOTS
            invariant
                i <= ECC_SLOTS,
                self.ecc_errors@ == old(self).ecc_errors@,
                self.soc_token == old(self).soc_token,
                self.staging_write_protect == old(self).staging_write_protect,
                same_locks(*old(self), *self),
                forall|j: int| 0 <= j < i ==> self.ecc_errors@[j] is Some,
            decreases ECC_SLOTS - i,
        {
            if self.ecc_errors[i].is_none() {
                self.ecc_errors[i] = Some(address);
                return true;
            }
            i = i + 1;
        }
        false
    }
    /// Handles one request: the state moves on as `access_next` says, and
    /// the answer is `access_answer`.
    pub fn handle(&mut self, request: AccessRequest) -> (answer: bool)
        ensures
            final(self)@ == access_next(old(self)@, request),
            answer == access_answer(old(self)@, request),
    {
        match request {
            AccessRequest::RegisterSocToken(id) => {
                self.register_soc_token(id);
                true
            },
            AccessRequest::SetStagingWriteProtect(id) => {
                self.set_staging_write_protect(id, true);
                true
            },
            AccessRequest::ClearStagingWriteProtect(id) => {
                self.set_staging_write_protect(id, false);
                true
            },
            AccessRequest::AcquireExclusive(id) => self.acquire_exclusive(id),
            AccessRequest::ReleaseExclusive => {
                self.release_exclusive();
                true
            },
            AccessRequest::AcquireSuspendLock => self.acquire_suspend_lock(),
            AccessRequest::ReleaseSuspendLock => {
                self.release_suspend_lock();
                true
            },
            AccessRequest::SuspendRequested => {
                self.begin_suspend();
                true
            },
            AccessRequest::SuspendFinished(ok) => {
                self.end_suspend(ok);
                true
            },
            AccessRequest::EccError(a) => self.record_ecc_error(a),
        }
    }
}

/// While a client holds the exclusive lock, a request for the suspend lock is
/// refused; while the suspend lock is held, a request for the exclusive lock
/// is refused.
pub proof fn lemma_locks_exclude_each_other(
    s0: SpinorAccess,
    id: [u32; 4],
    g1: bool,
    s1: SpinorAccess,
    g2: bool,
    s2: SpinorAccess,
)
    ensures
        access_wf(s0) && exclusive_outcome(s0, id, g1, s1) && g1 && suspend_lock_outcome(s1, g2, s2)
            ==> !g2 && s2.client_id == Some(id),
        suspend_lock_outcome(s0, g1, s1) && g1 && exclusive_outcome(s1, id, g2, s2) ==> !g2
            && s2.client_id is None,
{
}

/// A write that starts in the main SoC gateware (or anywhere in the SoC
/// region while the staging gateware is protected) is authorized only for a
/// writer that is both the SoC token holder and the exclusive lock holder.
pub proof fn lemma_soc_region_write_needs_token(s: SpinorAccess, id: [u32; 4], start: u32)
    requires
        write_verdict(s, id, start) is Ok,
        is_protected_start(s.staging_write_protect, start),
    ensures
        s.soc_token matches Some(t) && same_id(t, id),
        s.client_id matches Some(h) && same_id(h, id),
{
}

/// Writes into the main SoC gateware, `[0, 0x28_0000)`, from anyone but the
/// registered SoC token holder are refused with `AccessDenied`, whether the
/// staging gateware is protected or not; while it is protected, the same holds
/// for the whole SoC region up to the loader at `0x50_0000`. Elsewhere (past
/// the loader, or in the unprotected staging gateware) only the exclusive lock
/// decides, once a token exists.
pub proof fn lemma_gateware_writes_need_the_token(s: SpinorAccess, id: [u32; 4], start: u32)
    ensures
        start < 0x28_0000 && !(s.soc_token matches Some(t) && t@ == id@) ==> write_verdict(s, id, start)
            == Err::<(), SpinorError>(SpinorError::AccessDenied),
        s.staging_write_protect && start < 0x50_0000 && !(s.soc_token matches Some(t) && t@ == id@)
            ==> write_verdict(s, id, start) == Err::<(), SpinorError>(SpinorError::AccessDenied),
        (start >= 0x50_0000 || (!s.staging_write_protect && start >= 0x28_0000)) && s.soc_token is Some
            ==> write_verdict(s, id, start) == (match s.client_id {
            None => Err(SpinorError::NoId),
            Some(h) => if h@ == id@ {
                Ok(())
            } else {
                Err(SpinorError::IdMismatch)
            },
        }),
        s.soc_token is None ==> write_verdict(s, id, start) == Err::<(), SpinorError>(
            SpinorError::AccessDenied,
        ),
{
}

/// Every authorized write comes from the holder of the exclusive lock, after
/// a SoC token was registered.
pub proof fn lemma_write_needs_lock(s: SpinorAccess, id: [u32; 4], start: u32)
    requires
        write_verdict(s, id, start) is Ok,
    ensures
        s.soc_token is Some,
        s.client_id matches Some(h) && same_id(h, id),
{
}

/// Releases reopen the locks: after `ReleaseExclusive` nobody holds the
/// exclusive lock and no operation is in progress, so the suspend lock is
/// granted next; after `ReleaseSuspendLock` or a finished suspend nothing is
/// pending (a finished suspend records whether it failed), so the exclusive
/// lock is granted next when a token is registered and nobody holds it. An
/// exclusive lock is never granted before a token is registered.
pub proof fn lemma_releases_reopen_locks(s: AccessState, ok: bool, id: [u32; 4])
    ensures
        access_next(s, AccessRequest::ReleaseExclusive).client_id is None,
        !access_next(s, AccessRequest::ReleaseExclusive).op_in_progress,
        access_answer(access_next(s, AccessRequest::ReleaseExclusive), AccessRequest::AcquireSuspendLock),
        !access_next(s, AccessRequest::ReleaseSuspendLock).suspend_pending,
        !access_next(s, AccessRequest::SuspendFinished(ok)).suspend_pending,
        access_next(s, AccessRequest::SuspendFinished(ok)).suspend_failure == !ok,
        s.soc_token is Some && s.client_id is None ==> access_answer(
            access_next(s, AccessRequest::ReleaseSuspendLock),
            AccessRequest::AcquireExclusive(id),
        ) && access_answer(access_next(s, AccessRequest::SuspendFinished(ok)), AccessRequest::AcquireExclusive(id)),
        s.soc_token is None ==> !access_answer(s, AccessRequest::AcquireExclusive(id)),
        access_answer(s, AccessRequest::AcquireExclusive(id)) ==> ({
            let t = access_next(s, AccessRequest::AcquireExclusive(id));
            &&& t.client_id == Some(id)
            &&& t.op_in_progress
            &&& !t.suspend_failure
        }),
        access_answer(s, AccessRequest::AcquireSuspendLock) ==> access_next(
            s,
            AccessRequest::AcquireSuspendLock,
        ).suspend_pending,
{
}

/// Over any sequence of requests, the SoC token is the identifier of the
/// first `RegisterSocToken`: once registered it never changes.
pub proof fn lemma_soc_token_is_first_registration(s0: AccessState, reqs: Seq<AccessRequest>, i: nat)
    requires
        i <= reqs.len(),
    ensures
        state_after(s0, reqs, i).soc_token == (if s0.soc_token is Some {
            s0.soc_token
        } else {
            first_registration(reqs, i)
        }),
    decreases i,
{
    if i > 0 {
        lemma_soc_token_is_first_registration(s0, reqs, (i - 1) as nat);
    }
}

/// At every step of any sequence of requests, the staging write protection
/// changes only on a set (to protected) or clear (to unprotected) request
/// from the holder of the SoC token; before a token exists nothing changes it.
pub proof fn lemma_staging_flag_follows_token_holder(s0: AccessState, reqs: Seq<AccessRequest>, i: nat)
    requires
        i < reqs.len(),
    ensures
        ({
            let before = state_after(s0, reqs, i);
            let after = state_after(s0, reqs, i + 1);
            &&& after.staging_write_protect == match reqs[i as int] {
                AccessRequest::SetStagingWriteProtect(id) => if is_token_holder(before, id) {
                    true
                } else {
                    before.staging_write_protect
                },
                AccessRequest::ClearStagingWriteProtect(id) => if is_token_holder(before, id) {
                    false
                } else {
                    before.staging_write_protect
                },
                _ => before.staging_write_protect,
            }
            &&& before.soc_token is None ==> after.staging_write_protect == before.staging_write_protect
        }),
{
    assert(state_after(s0, reqs, i + 1) == access_next(state_after(s0, reqs, i), reqs[i as int]));
}

/// Once `id` is granted the exclusive lock, whatever requests follow, until a
/// release it keeps the lock, an operation stays in progress, and every
/// request for the exclusive lock or the suspend lock is refused.
pub proof fn lemma_exclusive_lock_blocks_until_release(
    s0: AccessState,
    reqs: Seq<AccessRequest>,
    id: [u32; 4],
    i: nat,
    j: nat,
)
    requires
        i < j <= reqs.len(),
        reqs[i as int] == AccessRequest::AcquireExclusive(id),
        access_answer(state_after(s0, reqs, i), reqs[i as int]),
        forall|k: int| i < k < j ==> !(#[trigger] reqs[k] is ReleaseExclusive),
    ensures
        state_after(s0, reqs, j).client_id == Some(id),
        state_after(s0, reqs, j).op_in_progress,
        j < reqs.len() && (reqs[j as int] is AcquireExclusive || reqs[j as int] is AcquireSuspendLock)
            ==> !access_answer(state_after(s0, reqs, j), reqs[j as int]),
    decreases j,
{
    if j > i + 1 {
        lemma_exclusive_lock_blocks_until_release(s0, reqs, id, i, (j - 1) as nat);
        assert(!(reqs[j - 1] is ReleaseExclusive));
    }
}

/// Once a suspend is pending (the suspend lock was granted, or a suspend was
/// requested), whatever requests follow, until the lock is released or the
/// suspend is over it stays pending and every request for the exclusive lock
/// is refused.
pub proof fn lemma_suspend_blocks_exclusive_lock(s0: AccessState, reqs: Seq<AccessRequest>, i: nat, j: nat)
    requires
        i < j <= reqs.len(),
        (reqs[i as int] is AcquireSuspendLock && access_answer(state_after(s0, reqs, i), reqs[i as int]))
            || reqs[i as int] is SuspendRequested,
        forall|k: int|
            i < k < j ==> !(#[trigger] reqs[k] is ReleaseSuspendLock) && !(reqs[k] is SuspendFinished),
    ensures
        state_after(s0, reqs, j).suspend_pending,
        j < reqs.len() && reqs[j as int] is AcquireExclusive ==> !access_answer(
            state_after(s0, reqs, j),
            reqs[j as int],
        ),
    decreases j,
{
    if j > i + 1 {
        lemma_suspend_blocks_exclusive_lock(s0, reqs, i, (j - 1) as nat);
        assert(!(reqs[j - 1] is ReleaseSuspendLock));
    }
}

/// Starting from an empty log, after any sequence of requests the ECC log
/// holds the first four reported addresses in the order they arrived, and
/// empty slots after them; later addresses are dropped.
pub proof fn lemma_ecc_log_keeps_first_four(s0: AccessState, reqs: Seq<AccessRequest>, i: nat)
    requires
        s0.ecc_errors == seq![None::<u32>, None, None, None],
        i <= reqs.len(),
    ensures
        state_after(s0, reqs, i).ecc_errors.len() == 4,
        forall|k: int|
            0 <= k < 4 ==> #[trigger] state_after(s0, reqs, i).ecc_errors[k] == (if k < ecc_reports(
                reqs,
                i,
            ).len() {
                Some(ecc_reports(reqs, i)[k])
            } else {
                None
            }),
    decreases i,
{
    if i > 0 {
        let p = (i - 1) as nat;
        lemma_ecc_log_keeps_first_four(s0, reqs, p);
        let b = state_after(s0, reqs, p);
        let rep = ecc_reports(reqs, p);
        match reqs[i - 1] {
            AccessRequest::EccError(a) => {
                if rep.len() < 4 {
                    let n = rep.len() as int;
                    assert(first_empty_slot(b.ecc_errors) == Some(n)) by {
                        assert(forall|k: int| 0 <= k < n ==> b.ecc_errors[k] is Some);
                        assert(b.ecc_errors[n] is None);
                    }
                } else {
                    assert(first_empty_slot(b.ecc_errors) is None) by {
                        assert(b.ecc_errors[0] is Some);
                        assert(b.ecc_errors[1] is Some);
                        assert(b.ecc_errors[2] is Some);
                        assert(b.ecc_errors[3] is Some);
                    }
                }
            },
            _ => {},
        }
    }
}

} // verus!
