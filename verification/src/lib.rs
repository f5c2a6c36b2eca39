use vstd::prelude::*;

pub mod abi;
pub mod handle;
pub mod host_tables;
pub mod lua_detail_budget;
pub mod lua_generation;
pub mod lua_input;
pub mod lua_open;
pub mod lua_producer_operations;
pub mod lua_progress;
pub mod lua_transport;
pub mod producer;
pub mod producer_message;
pub mod producer_types;
pub mod ship_detail;
pub mod text;
pub mod transport_types;
pub mod transport_worker;
pub mod types;

pub use handle::HandleRegistry;
pub use types::{
    CarrierError, CarrierLimits, CloseOutcome, ControlPollOutcome, HandleToken, OpenConfig,
    SendOutcome,
};

verus! {

/// Version of the native module's calling contract.
pub const ABI_VERSION: u32 = 2;

/// Status a host sees for an operation the module does not offer.
pub const OPERATION_UNAVAILABLE: i32 = -100;

/// The operations the module registers with the host, in registration order.
pub const OPERATIONS: [&'static str; 10] = [
    "abi_version",
    "open",
    "begin_section",
    "push_record",
    "finish_section",
    "fail_section",
    "progress",
    "poll_control",
    "reset",
    "close",
];

/// The calling contract the module offers its host.
#[derive(Clone, Copy, Debug, PartialEq, Eq)]
pub struct ModuleContract {
    pub abi_version: u32,
    pub operations: &'static [&'static str],
}

/// The module's calling contract: its version and its operations.
pub fn module_contract() -> (contract: ModuleContract)
    ensures
        contract.abi_version == ABI_VERSION,
        contract.operations@ == OPERATIONS@,
{
    ModuleContract { abi_version: ABI_VERSION, operations: OPERATIONS.as_slice() }
}

/// The names of the operations the module registers, in order.
pub fn registered_operations() -> (names: Vec<&'static str>)
    ensures
        names@ == OPERATIONS@,
{
    let mut names: Vec<&'static str> = Vec::new();
    let mut i: usize = 0;
    while i < 10
        invariant
            i <= 10,
            names@ == OPERATIONS@.subrange(0, i as int),
        decreases 10 - i,
    {
        names.push(OPERATIONS[i]);
        proof {
            assert(OPERATIONS@.subrange(0, i + 1) =~= OPERATIONS@.subrange(0, i as int).push(OPERATIONS@[i as int]));
        }
        i = i + 1;
    }
    assert(OPERATIONS@.subrange(0, 10) =~= OPERATIONS@);
    names
}

/// Why the module could not install itself into the host.
#[derive(Clone, Copy, Debug, PartialEq, Eq)]
pub enum InitializerError {
    NullState,
    MissingHostModule,
    MissingHostSymbol(&'static str),
}

/// Checks that the host exports every symbol the module calls.
pub fn require_lua_symbols<F: Fn(&str) -> bool>(available: F) -> (result: Result<(), InitializerError>)
    requires
        forall|name: &str| available.requires((name,)),
    ensures
        match result {
            Ok(()) => forall|i: int| 0 <= i < 16 ==> available.ensures((abi::REQUIRED@[i],), true),
            Err(InitializerError::MissingHostSymbol(name)) => exists|i: int| {
                &&& 0 <= i < 16
                &&& name == abi::REQUIRED@[i]
                &&& available.ensures((abi::REQUIRED@[i],), false)
                &&& forall|j: int| 0 <= j < i ==> available.ensures((abi::REQUIRED@[j],), true)
            },
            Err(_) => false,
        },
{
    abi::require_lua_symbols(available)
}

} // verus!
