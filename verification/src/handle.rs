use vstd::prelude::*;

use crate::types::{
    CarrierError, CloseOutcome, ControlPollOutcome, HandleToken, OpenConfig, SendOutcome,
    OPEN_CONFIG_RECORD_SIZE,
};

verus! {

/// The single carrier handle that a registry tracks, as a mathematical value.
pub struct EntryView {
    pub token: HandleToken,
    pub config: OpenConfig,
    pub active: bool,
    pub pending: Option<Seq<u8>>,
    pub control: Option<Seq<u8>>,
}

/// A registry as a mathematical value: the next generation to hand out
/// (`None` once exhausted) and the most recently opened handle.
pub struct RegistryView {
    pub next_generation: Option<u32>,
    pub current: Option<EntryView>,
}

/// A control poll result with its message as a byte sequence.
pub enum PollView {
    NoMessage,
    Message(Seq<u8>),
    Rejected(CarrierError),
}

impl View for ControlPollOutcome {
    type V = PollView;

    open spec fn view(&self) -> PollView {
        match self {
            ControlPollOutcome::NoMessage => PollView::NoMessage,
            ControlPollOutcome::Message(bytes) => PollView::Message(bytes@),
            ControlPollOutcome::Rejected(error) => PollView::Rejected(*error),
        }
    }
}

/// `token` names the registry's current handle and that handle is still open.
pub open spec fn owns(r: RegistryView, token: HandleToken) -> bool {
    r.current matches Some(e) && e.active && e.token == token
}

/// The shape every registry keeps: its handle sits in slot 1 with a
/// generation below the next one to hand out, a closed handle holds no
/// message, and each held message is within the handle's ceiling.
pub open spec fn registry_wf(r: RegistryView) -> bool {
    match r.current {
        None => true,
        Some(e) => {
            &&& e.token.slot == 1
            &&& (r.next_generation matches Some(n) ==> e.token.generation < n)
            &&& (!e.active ==> e.pending is None && e.control is None)
            &&& (e.pending matches Some(p) ==> p.len() <= e.config.limits.data_message_bytes)
            &&& (e.control matches Some(c) ==> c.len() <= e.config.limits.control_message_bytes)
        },
    }
}

/// What `open` does to the registry and returns.
pub open spec fn spec_open(r: RegistryView, config: OpenConfig) -> (RegistryView, Result<HandleToken, CarrierError>) {
    if config.abi_version != crate::ABI_VERSION {
        (r, Err(CarrierError::WrongVersion))
    } else if config.record_size != OPEN_CONFIG_RECORD_SIZE {
        (r, Err(CarrierError::WrongRecordSize))
    } else {
        match r.next_generation {
            None => (r, Err(CarrierError::GenerationExhausted)),
            Some(g) => {
                let token = HandleToken { generation: g, slot: 1 };
                (
                    RegistryView {
                        next_generation: if g < u32::MAX { Some((g + 1) as u32) } else { None },
                        current: Some(EntryView { token, config, active: true, pending: None, control: None }),
                    },
                    Ok(token),
                )
            },
        }
    }
}

/// What `try_send` does to the registry and returns.
pub open spec fn spec_try_send(r: RegistryView, token: HandleToken, bytes: Seq<u8>) -> (RegistryView, SendOutcome) {
    match r.current {
        None => (r, SendOutcome::Rejected(CarrierError::StaleHandle)),
        Some(e) => {
            if bytes.len() > e.config.limits.data_message_bytes {
                (r, SendOutcome::Rejected(CarrierError::MessageTooLarge))
            } else if e.token != token || !e.active {
                (r, SendOutcome::Rejected(CarrierError::StaleHandle))
            } else if e.pending is Some {
                (r, SendOutcome::CapacityUnavailable)
            } else {
                (RegistryView { current: Some(EntryView { pending: Some(bytes), ..e }), ..r }, SendOutcome::LocalHandoff)
            }
        },
    }
}

/// What `pending_copy` returns.
pub open spec fn spec_pending_copy(r: RegistryView, token: HandleToken) -> Option<Seq<u8>> {
    if owns(r, token) { r.current->0.pending } else { None }
}

/// What `queue_control` does to the registry and returns.
pub open spec fn spec_queue_control(r: RegistryView, token: HandleToken, bytes: Seq<u8>) -> (RegistryView, Result<(), CarrierError>) {
    if !owns(r, token) {
        (r, Err(CarrierError::StaleHandle))
    } else {
        let e = r.current->0;
        if bytes.len() > e.config.limits.control_message_bytes {
            (r, Err(CarrierError::ControlTooLarge))
        } else if e.control is Some {
            (r, Err(CarrierError::ControlCapacityUnavailable))
        } else {
            (RegistryView { current: Some(EntryView { control: Some(bytes), ..e }), ..r }, Ok(()))
        }
    }
}

/// What `poll_control` does to the registry and returns.
pub open spec fn spec_poll_control(r: RegistryView, token: HandleToken, capacity: usize) -> (RegistryView, PollView) {
    if !owns(r, token) {
        (r, PollView::Rejected(CarrierError::StaleHandle))
    } else {
        let e = r.current->0;
        match e.control {
            None => (r, PollView::NoMessage),
            Some(c) => if capacity < c.len() {
                (r, PollView::Rejected(CarrierError::InvalidOutputCapacity))
            } else {
                (RegistryView { current: Some(EntryView { control: None, ..e }), ..r }, PollView::Message(c))
            },
        }
    }
}

/// What `reset` does to the registry and returns.
pub open spec fn spec_reset(r: RegistryView, token: HandleToken) -> (RegistryView, Result<(), CarrierError>) {
    if !owns(r, token) {
        (r, Err(CarrierError::StaleHandle))
    } else {
        let e = r.current->0;
        (RegistryView { current: Some(EntryView { pending: None, control: None, ..e }), ..r }, Ok(()))
    }
}

/// What `close` does to the registry and returns.
pub open spec fn spec_close(r: RegistryView, token: HandleToken) -> (RegistryView, CloseOutcome) {
    match r.current {
        None => (r, CloseOutcome::Rejected(CarrierError::StaleHandle)),
        Some(e) => if e.token != token {
            (r, CloseOutcome::Rejected(CarrierError::StaleHandle))
        } else if !e.active {
            (r, CloseOutcome::AlreadyClosed)
        } else {
            (RegistryView { current: Some(EntryView { active: false, pending: None, control: None, ..e }), ..r }, CloseOutcome::Closed)
        },
    }
}

/// A data message handed to an open handle is exactly what a later copy
/// returns for that handle.
pub proof fn law_send_then_copy(r: RegistryView, token: HandleToken, bytes: Seq<u8>)
    ensures
        spec_try_send(r, token, bytes).1 == SendOutcome::LocalHandoff ==> spec_pending_copy(
            spec_try_send(r, token, bytes).0,
            token,
        ) == Some(bytes),
{
}

/// A queued control message is returned whole by the next poll that has room
/// for it, and the poll after that finds nothing.
pub proof fn law_queue_then_poll(r: RegistryView, token: HandleToken, bytes: Seq<u8>, capacity: usize)
    requires
        spec_queue_control(r, token, bytes).1 is Ok,
        capacity >= bytes.len(),
    ensures
        spec_poll_control(spec_queue_control(r, token, bytes).0, token, capacity).1 == PollView::Message(bytes),
        spec_poll_control(spec_poll_control(spec_queue_control(r, token, bytes).0, token, capacity).0, token, capacity).1
            == PollView::NoMessage,
{
}

/// A token that does not own the registry's open handle changes nothing,
/// whichever operation carries it.
pub proof fn law_stale_token_cannot_mutate(r: RegistryView, token: HandleToken, bytes: Seq<u8>, capacity: usize)
    requires
        !owns(r, token),
    ensures
        spec_try_send(r, token, bytes).0 == r,
        spec_queue_control(r, token, bytes).0 == r,
        spec_poll_control(r, token, capacity).0 == r,
        spec_reset(r, token).0 == r,
        spec_close(r, token).0 == r,
        spec_pending_copy(r, token) is None,
{
}

/// A successful open makes the new token the only owner.
pub proof fn law_open_supersedes(r: RegistryView, config: OpenConfig, other: HandleToken)
    requires
        spec_open(r, config).1 is Ok,
        other != spec_open(r, config).1->Ok_0,
    ensures
        owns(spec_open(r, config).0, spec_open(r, config).1->Ok_0),
        !owns(spec_open(r, config).0, other),
{
}

/// Successive successful opens hand out strictly increasing generations, so a
/// token is never issued twice.
pub proof fn law_generations_increase(r: RegistryView, first: OpenConfig, second: OpenConfig)
    requires
        spec_open(r, first).1 is Ok,
        spec_open(spec_open(r, first).0, second).1 is Ok,
    ensures
        spec_open(r, first).1->Ok_0.generation < spec_open(spec_open(r, first).0, second).1->Ok_0.generation,
{
}

/// Closing the owner ends its ownership; a second close reports that the
/// handle is already closed.
pub proof fn law_close_then_closed(r: RegistryView, token: HandleToken)
    requires
        owns(r, token),
    ensures
        spec_close(r, token).1 == CloseOutcome::Closed,
        !owns(spec_close(r, token).0, token),
        spec_close(spec_close(r, token).0, token).1 == CloseOutcome::AlreadyClosed,
{
}

/// Resetting the owner keeps it open and leaves no message behind.
pub proof fn law_reset_keeps_owner(r: RegistryView, token: HandleToken, capacity: usize)
    requires
        owns(r, token),
    ensures
        spec_reset(r, token).1 is Ok,
        owns(spec_reset(r, token).0, token),
        spec_pending_copy(spec_reset(r, token).0, token) is None,
        spec_poll_control(spec_reset(r, token).0, token, capacity).1 == PollView::NoMessage,
{
}

/// Every registry operation keeps the registry's shape, so every registry
/// reached from a fresh one by any sequence of operations has it.
pub proof fn law_operations_keep_shape(
    r: RegistryView,
    config: OpenConfig,
    token: HandleToken,
    bytes: Seq<u8>,
    capacity: usize,
)
    requires
        registry_wf(r),
    ensures
        registry_wf(spec_open(r, config).0),
        registry_wf(spec_try_send(r, token, bytes).0),
        registry_wf(spec_queue_control(r, token, bytes).0),
        registry_wf(spec_poll_control(r, token, capacity).0),
        registry_wf(spec_reset(r, token).0),
        registry_wf(spec_close(r, token).0),
{
}

/// At most one token owns a registry: it sits in slot 1 and its generation
/// is below the next one the registry will hand out.
pub proof fn law_single_owner(r: RegistryView, a: HandleToken, b: HandleToken)
    requires
        registry_wf(r),
        owns(r, a),
        owns(r, b),
    ensures
        a == b,
        a.slot == 1,
        r.next_generation matches Some(n) ==> a.generation < n,
{
}

/// A poll by the owner with room for a full control message delivers the
/// queued one, whatever it holds.
pub proof fn law_owner_poll_delivers(r: RegistryView, token: HandleToken, capacity: usize)
    requires
        registry_wf(r),
        owns(r, token),
        r.current->0.control is Some,
        capacity >= r.current->0.config.limits.control_message_bytes,
    ensures
        spec_poll_control(r, token, capacity).1 == PollView::Message(r.current->0.control->0),
        spec_poll_control(r, token, capacity).0.current->0.control is None,
{
}

struct Entry {
    token: HandleToken,
    config: OpenConfig,
    active: bool,
    pending: Option<Vec<u8>>,
    control: Option<Vec<u8>>,
}

impl Entry {
    closed spec fn view(&self) -> EntryView {
        EntryView {
            token: self.token,
            config: self.config,
            active: self.active,
            pending: match self.pending { Some(p) => Some(p@), None => None },
            control: match self.control { Some(c) => Some(c@), None => None },
        }
    }
}

/// Tracks the most recently opened carrier handle and the one data message
/// and one control message it may hold.
pub struct HandleRegistry {
    next_generation: Option<u32>,
    current: Option<Entry>,
}

/// The handle slot as a mathematical value.
spec fn current_view(current: Option<Entry>) -> Option<EntryView> {
    match current {
        Some(e) => Some(e.view()),
        None => None,
    }
}

/// A registry view with the given generation counter and handle slot.
spec fn with_current(next: Option<u32>, current: Option<Entry>) -> RegistryView {
    RegistryView { next_generation: next, current: current_view(current) }
}

impl View for HandleRegistry {
    type V = RegistryView;

    closed spec fn view(&self) -> RegistryView {
        with_current(self.next_generation, self.current)
    }
}

/// `try_send` on the registry's handle slot, taken out of the registry.
fn send_into(current: &mut Option<Entry>, token: HandleToken, bytes: &[u8], Ghost(next): Ghost<Option<u32>>) -> (outcome: SendOutcome)
    ensures
        (with_current(next, *final(current)), outcome) == spec_try_send(with_current(next, *old(current)), token, bytes@),
{
    match current {
        None => SendOutcome::Rejected(CarrierError::StaleHandle),
        Some(entry) => {
            if bytes.len() > entry.config.limits.data_message_bytes {
                return SendOutcome::Rejected(CarrierError::MessageTooLarge);
            }
            if entry.token != token || !entry.active {
                return SendOutcome::Rejected(CarrierError::StaleHandle);
            }
            if entry.pending.is_some() {
                return SendOutcome::CapacityUnavailable;
            }
            entry.pending = Some(crate::abi::copy_owned(bytes));
            SendOutcome::LocalHandoff
        },
    }
}

/// `queue_control` on the registry's handle slot, taken out of the registry.
fn queue_into(current: &mut Option<Entry>, token: HandleToken, bytes: &[u8], Ghost(next): Ghost<Option<u32>>) -> (result: Result<(), CarrierError>)
    ensures
        (with_current(next, *final(current)), result) == spec_queue_control(with_current(next, *old(current)), token, bytes@),
{
    match current {
        Some(entry) => {
            if !(entry.active && entry.token == token) {
                return Err(CarrierError::StaleHandle);
            }
            if bytes.len() > entry.config.limits.control_message_bytes {
                return Err(CarrierError::ControlTooLarge);
            }
            if entry.control.is_some() {
                return Err(CarrierError::ControlCapacityUnavailable);
            }
            entry.control = Some(crate::abi::copy_owned(bytes));
            Ok(())
        },
        None => Err(CarrierError::StaleHandle),
    }
}

/// `poll_control` on the registry's handle slot, taken out of the registry.
fn poll_from(current: &mut Option<Entry>, token: HandleToken, capacity: usize, Ghost(next): Ghost<Option<u32>>) -> (outcome: ControlPollOutcome)
    ensures
        (with_current(next, *final(current)), outcome@) == spec_poll_control(with_current(next, *old(current)), token, capacity),
{
    match current {
        Some(entry) => {
            if !(entry.active && entry.token == token) {
                return ControlPollOutcome::Rejected(CarrierError::StaleHandle);
            }
            let fits = match &entry.control {
                None => { return ControlPollOutcome::NoMessage; },
                Some(control) => capacity >= control.len(),
            };
            if !fits {
                return ControlPollOutcome::Rejected(CarrierError::InvalidOutputCapacity);
            }
            match entry.control.take() {
                Some(control) => ControlPollOutcome::Message(control),
                None => ControlPollOutcome::NoMessage,
            }
        },
        None => ControlPollOutcome::Rejected(CarrierError::StaleHandle),
    }
}

/// `reset` on the registry's handle slot, taken out of the registry.
fn reset_in(current: &mut Option<Entry>, token: HandleToken, Ghost(next): Ghost<Option<u32>>) -> (result: Result<(), CarrierError>)
    ensures
        (with_current(next, *final(current)), result) == spec_reset(with_current(next, *old(current)), token),
{
    match current {
        Some(entry) => {
            if !(entry.active && entry.token == token) {
                return Err(CarrierError::StaleHandle);
            }
            entry.pending = None;
            entry.control = None;
            Ok(())
        },
        None => Err(CarrierError::StaleHandle),
    }
}

/// `close` on the registry's handle slot, taken out of the registry.
fn close_in(current: &mut Option<Entry>, token: HandleToken, Ghost(next): Ghost<Option<u32>>) -> (outcome: CloseOutcome)
    ensures
        (with_current(next, *final(current)), outcome) == spec_close(with_current(next, *old(current)), token),
{
    match current {
        None => CloseOutcome::Rejected(CarrierError::StaleHandle),
        Some(entry) => {
            if entry.token != token {
                return CloseOutcome::Rejected(CarrierError::StaleHandle);
            }
            if !entry.active {
                return CloseOutcome::AlreadyClosed;
            }
            entry.active = false;
            entry.pending = None;
            entry.control = None;
            CloseOutcome::Closed
        },
    }
}

impl HandleRegistry {
    #[verifier::type_invariant]
    spec fn shape(self) -> bool {
        registry_wf(self@)
    }

    /// A registry whose first handle gets generation 1.
    pub fn new() -> (registry: Self)
        ensures
            registry@ == (RegistryView { next_generation: Some(1), current: None }),
            registry_wf(registry@),
    {
        HandleRegistry { next_generation: Some(1), current: None }
    }

    /// A registry whose first handle gets the given generation.
    pub fn starting_at(next_generation: u32) -> (registry: Self)
        ensures
            registry@ == (RegistryView { next_generation: Some(next_generation), current: None }),
            registry_wf(registry@),
    {
        HandleRegistry { next_generation: Some(next_generation), current: None }
    }

    /// Opens a new handle, replacing any earlier one.
    pub fn open(&mut self, config: OpenConfig) -> (result: Result<HandleToken, CarrierError>)
        ensures
            (final(self)@, result) == spec_open(old(self)@, config),
            registry_wf(final(self)@),
    {
        proof { use_type_invariant(&*self); }
        if config.abi_version != crate::ABI_VERSION {
            return Err(CarrierError::WrongVersion);
        }
        if config.record_size != OPEN_CONFIG_RECORD_SIZE {
            return Err(CarrierError::WrongRecordSize);
        }
        let generation = match self.next_generation {
            Some(g) => g,
            None => { return Err(CarrierError::GenerationExhausted); },
        };
        let token = HandleToken { generation, slot: 1 };
        self.next_generation = generation.checked_add(1);
        self.current = Some(Entry { token, config, active: true, pending: None, control: None });
        Ok(token)
    }

    /// Hands one data message to the current handle.
    pub fn try_send(&mut self, token: HandleToken, bytes: &[u8]) -> (outcome: SendOutcome)
        ensures
            (final(self)@, outcome) == spec_try_send(old(self)@, token, bytes@),
            registry_wf(final(self)@),
    {
        proof { use_type_invariant(&*self); }
        let mut current: Option<Entry> = None;
        std::mem::swap(&mut current, &mut self.current);
        let answer = send_into(&mut current, token, bytes, Ghost(self.next_generation));
        self.current = current;
        answer
    }

    /// A copy of the data message the handle holds, if the handle is open.
    pub fn pending_copy(&self, token: HandleToken) -> (copy: Option<Vec<u8>>)
        ensures
            match copy {
                Some(c) => spec_pending_copy(self@, token) == Some(c@),
                None => spec_pending_copy(self@, token) is None,
            },
    {
        match &self.current {
            Some(entry) => {
                if entry.active && entry.token == token {
                    match &entry.pending {
                        Some(p) => Some(p.clone()),
                        None => None,
                    }
                } else {
                    None
                }
            },
            None => None,
        }
    }

    /// Queues one control message for the handle's owner.
    pub fn queue_control(&mut self, token: HandleToken, bytes: &[u8]) -> (result: Result<(), CarrierError>)
        ensures
            (final(self)@, result) == spec_queue_control(old(self)@, token, bytes@),
            registry_wf(final(self)@),
    {
        proof { use_type_invariant(&*self); }
        let mut current: Option<Entry> = None;
        std::mem::swap(&mut current, &mut self.current);
        let answer = queue_into(&mut current, token, bytes, Ghost(self.next_generation));
        self.current = current;
        answer
    }

    /// Takes the queued control message if it fits in `capacity` bytes.
    pub fn poll_control(&mut self, token: HandleToken, capacity: usize) -> (outcome: ControlPollOutcome)
        ensures
            (final(self)@, outcome@) == spec_poll_control(old(self)@, token, capacity),
            registry_wf(final(self)@),
    {
        proof { use_type_invariant(&*self); }
        let mut current: Option<Entry> = None;
        std::mem::swap(&mut current, &mut self.current);
        let answer = poll_from(&mut current, token, capacity, Ghost(self.next_generation));
        self.current = current;
        answer
    }

    /// Drops the handle's queued messages while keeping it open.
    pub fn reset(&mut self, token: HandleToken) -> (result: Result<(), CarrierError>)
        ensures
            (final(self)@, result) == spec_reset(old(self)@, token),
            registry_wf(final(self)@),
    {
        proof { use_type_invariant(&*self); }
        let mut current: Option<Entry> = None;
        std::mem::swap(&mut current, &mut self.current);
        let answer = reset_in(&mut current, token, Ghost(self.next_generation));
        self.current = current;
        answer
    }

    /// Closes the handle and drops its queued messages.
    pub fn close(&mut self, token: HandleToken) -> (outcome: CloseOutcome)
        ensures
            (final(self)@, outcome) == spec_close(old(self)@, token),
            registry_wf(final(self)@),
    {
        proof { use_type_invariant(&*self); }
        let mut current: Option<Entry> = None;
        std::mem::swap(&mut current, &mut self.current);
        let answer = close_in(&mut current, token, Ghost(self.next_generation));
        self.current = current;
        answer
    }

    /// Whether `token` names the current, still open handle.
    pub fn is_active(&self, token: HandleToken) -> (active: bool)
        ensures
            active == owns(self@, token),
            active ==> token.slot == 1,
            registry_wf(self@),
    {
        proof { use_type_invariant(self); }
        match &self.current {
            Some(entry) => entry.active && entry.token == token,
            None => false,
        }
    }
}

} // verus!
