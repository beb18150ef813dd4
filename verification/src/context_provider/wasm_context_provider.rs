use crate::context_provider::{ContextProvider, ContextProviderContext, ContextProviderError};
use crate::wasm_guest::ContextProviderGuestContext;
use vstd::prelude::*;
use vstd::utf8::encode_utf8;
use wasmtime::{Engine, Instance, Linker, Memory, Module, Store, TypedFunc};

verus! {

#[verifier::external_type_specification]
#[verifier::external_body]
pub struct ExEngine(wasmtime::Engine);

#[verifier::external_type_specification]
#[verifier::external_body]
pub struct ExModule(wasmtime::Module);

#[verifier::external_type_specification]
#[verifier::external_body]
#[verifier::reject_recursive_types(T)]
pub struct ExStore<T: 'static>(wasmtime::Store<T>);

#[verifier::external_type_specification]
#[verifier::external_body]
pub struct ExInstance(wasmtime::Instance);

#[verifier::external_type_specification]
#[verifier::external_body]
pub struct ExMemory(wasmtime::Memory);

#[verifier::external_type_specification]
#[verifier::external_body]
#[verifier::reject_recursive_types(Params)]
#[verifier::reject_recursive_types(Results)]
pub struct ExTypedFunc<Params, Results>(wasmtime::TypedFunc<Params, Results>);

#[verifier::external_type_specification]
#[verifier::external_body]
pub struct ExWasmtimeError(wasmtime::Error);

/// The parameters of a guest's `pre_action_hook`: a pointer and a length for
/// each of the user id, the key path, the action id and the payload.
pub type HookParams = (i32, i32, i32, i32, i32, i32, i32, i32);

/// A compiled module, with the bytes that it was compiled from.
struct CompiledModule {
    module: Module,
    source: Ghost<Seq<u8>>,
}

/// A guest module instantiated in a store of its own, with the bytes of the
/// module and the fuel that the store was given.
struct Instantiated {
    store: Store<()>,
    instance: Instance,
    source: Ghost<Seq<u8>>,
    fuel: Ghost<u64>,
}

/// An instantiated guest with its exported memory.
struct WithMemory {
    store: Store<()>,
    instance: Instance,
    memory: Memory,
    source: Ghost<Seq<u8>>,
    fuel: Ghost<u64>,
}

/// An instantiated guest with its exported memory and allocator.
struct WithAlloc {
    store: Store<()>,
    instance: Instance,
    memory: Memory,
    alloc: TypedFunc<i32, i32>,
    source: Ghost<Seq<u8>>,
    fuel: Ghost<u64>,
}

/// The parts of one instantiated guest that the host uses: its store, and the
/// memory and functions that the guest exports from that store.
struct GuestParts {
    store: Store<()>,
    memory: Memory,
    alloc: TypedFunc<i32, i32>,
    hook: TypedFunc<HookParams, i32>,
    source: Ghost<Seq<u8>>,
    fuel: Ghost<u64>,
}

/// One call of the guest's allocator, memory or hook, with what it was handed
/// and what it answered (`None` where the call failed).
pub enum HostEvent {
    Alloc { len: i32, answer: Option<i32> },
    Write { offset: usize, data: Seq<u8>, written: bool },
    Hook { params: HookParams, answer: Option<i32> },
    Read { offset: usize, len: nat, answer: Option<Seq<u8>> },
}

/// A fresh instance of a guest module, ready to be called, with the calls made
/// on it so far.
pub struct Guest {
    parts: GuestParts,
    log: Ghost<Seq<HostEvent>>,
}

impl Guest {
    /// The calls made on the guest so far, in order.
    pub closed spec fn calls(&self) -> Seq<HostEvent> {
        self.log@
    }

    /// The bytes of the module that the guest is an instance of.
    pub closed spec fn source(&self) -> Seq<u8> {
        self.parts.source@
    }

    /// The fuel that the guest's store was given before any guest code ran.
    pub closed spec fn fuel(&self) -> u64 {
        self.parts.fuel@
    }
}

/// Compiles a WebAssembly module (binary or text) for metered execution: makes
/// an engine with a copy of `engine`'s configuration (`Engine::config`) in
/// which `Config::consume_fuel` is on (`Engine::new`), and compiles `bytes` on
/// it (`Module::new`). Claimed: the module returned records the bytes it was
/// compiled from. Nothing is claimed of when engine or compilation succeed.
#[verifier::external_body]
fn compile_metered(engine: &Engine, bytes: &[u8]) -> (r: Result<CompiledModule, wasmtime::Error>)
    ensures
        r matches Ok(c) ==> c.source@ == bytes@,
{
    let mut config = engine.config().clone();
    config.consume_fuel(true);
    let metered = Engine::new(&config)?;
    let module = Module::new(&metered, bytes)?;
    Ok(CompiledModule { module, source: Ghost(bytes@) })
}

/// Calls `Linker::instantiate` with an empty linker and a fresh store, both made
/// on the module's own engine (`Module::engine`, `Linker::new`, `Store::new`),
/// so that nothing handed to the call belongs to another engine or store.
/// Before any guest code runs, `Store::set_fuel` gives the store `fuel` units;
/// where the engine does not meter fuel that call fails and no guest code
/// runs. Guest code in this store (the module's start function here, and later
/// calls) traps when the fuel is spent, so none of it runs without bound.
/// Claimed: the instance records the module's bytes and the fuel given.
/// Nothing is claimed of when instantiation succeeds.
#[verifier::external_body]
fn instantiate_guest(compiled: &CompiledModule, fuel: u64) -> (r: Option<Instantiated>)
    ensures
        r matches Some(i) ==> i.source == compiled.source && i.fuel@ == fuel,
{
    let engine = compiled.module.engine();
    let linker = Linker::<()>::new(engine);
    let mut store = Store::new(engine, ());
    if store.set_fuel(fuel).is_err() {
        return None;
    }
    match linker.instantiate(&mut store, &compiled.module) {
        Ok(instance) => Some(Instantiated { store, instance, source: compiled.source, fuel: Ghost(fuel) }),
        Err(_) => None,
    }
}

/// Calls `Instance::get_memory` on the guest's own store.
#[verifier::external_body]
fn find_memory(guest: Instantiated, name: &str) -> (r: Option<WithMemory>)
    ensures
        r matches Some(g) ==> g.source == guest.source && g.fuel == guest.fuel,
{
    let Instantiated { mut store, instance, source, fuel } = guest;
    match instance.get_memory(&mut store, name) {
        Some(memory) => Some(WithMemory { store, instance, memory, source, fuel }),
        None => None,
    }
}

/// Calls `Instance::get_typed_func` for a function from `i32` to `i32`, on the
/// guest's own store.
#[verifier::external_body]
fn find_alloc(guest: WithMemory, name: &str) -> (r: Option<WithAlloc>)
    ensures
        r matches Some(g) ==> g.source == guest.source && g.fuel == guest.fuel,
{
    let WithMemory { mut store, instance, memory, source, fuel } = guest;
    match instance.get_typed_func::<i32, i32>(&mut store, name) {
        Ok(alloc) => Some(WithAlloc { store, instance, memory, alloc, source, fuel }),
        Err(_) => None,
    }
}

/// Calls `Instance::get_typed_func` for a function from eight `i32` to `i32`,
/// on the guest's own store.
#[verifier::external_body]
fn find_hook(guest: WithAlloc, name: &str) -> (r: Option<GuestParts>)
    ensures
        r matches Some(g) ==> g.source == guest.source && g.fuel == guest.fuel,
{
    let WithAlloc { mut store, instance, memory, alloc, source, fuel } = guest;
    match instance.get_typed_func::<HookParams, i32>(&mut store, name) {
        Ok(hook) => Some(GuestParts { store, memory, alloc, hook, source, fuel }),
        Err(_) => None,
    }
}

/// Calls `TypedFunc::call` on the guest's allocator, in the guest's own store,
/// whose fuel bounds the guest code (running out is a trap, that is, `None`).
/// Claimed: the call is recorded with its length and answer. Nothing is
/// claimed of the answer, which guest code computes.
#[verifier::external_body]
fn guest_alloc(guest: &mut Guest, len: i32) -> (r: Option<i32>)
    ensures
        final(guest).log@ == old(guest).log@.push(HostEvent::Alloc { len, answer: r }),
        final(guest).source() == old(guest).source(),
{
    match guest.parts.alloc.call(&mut guest.parts.store, len) {
        Ok(ptr) => Some(ptr),
        Err(_) => None,
    }
}

/// Calls `Memory::write` on the guest's memory, in the guest's own store.
/// Claimed: the call is recorded with its offset, data and success. Nothing is
/// claimed of when the write is in bounds.
#[verifier::external_body]
fn guest_write(guest: &mut Guest, offset: usize, data: &[u8]) -> (r: bool)
    ensures
        final(guest).log@ == old(guest).log@.push(HostEvent::Write { offset, data: data@, written: r }),
        final(guest).source() == old(guest).source(),
{
    guest.parts.memory.write(&mut guest.parts.store, offset, data).is_ok()
}

/// Calls `TypedFunc::call` on the guest's hook, in the guest's own store,
/// whose fuel bounds the guest code (running out is a trap, that is, `None`).
/// Claimed: the call is recorded with its parameters and answer. Nothing is
/// claimed of the answer, which guest code computes.
#[verifier::external_body]
fn guest_hook(guest: &mut Guest, params: HookParams) -> (r: Option<i32>)
    ensures
        final(guest).log@ == old(guest).log@.push(HostEvent::Hook { params, answer: r }),
        final(guest).source() == old(guest).source(),
{
    match guest.parts.hook.call(&mut guest.parts.store, params) {
        Ok(ptr) => Some(ptr),
        Err(_) => None,
    }
}

/// Calls `Memory::read` on the guest's memory, in the guest's own store, which
/// fills `buffer`. Claimed: the buffer keeps its length, and the call is
/// recorded with its offset, length and, on success, the bytes read. Nothing
/// is claimed of the bytes, which the guest wrote.
#[verifier::external_body]
fn guest_read(guest: &mut Guest, offset: usize, buffer: &mut [u8]) -> (r: bool)
    ensures
        final(buffer)@.len() == old(buffer)@.len(),
        final(guest).source() == old(guest).source(),
        final(guest).log@ == old(guest).log@.push(
            HostEvent::Read {
                offset,
                len: old(buffer)@.len(),
                answer: if r {
                    Some(final(buffer)@)
                } else {
                    None
                },
            },
        ),
{
    guest.parts.memory.read(&guest.parts.store, offset, buffer).is_ok()
}

impl From<ContextProviderContext> for ContextProviderGuestContext {
    /// The context that a guest is meant to see of a request.
    fn from(context: ContextProviderContext) -> (r: Self)
        ensures
            r.user@ == context.user.spec_id(),
            r.key_path@ == context.key_path@,
            r.action_id@ == context.action_id@,
            r.payload@ == context.payload@,
    {
        ContextProviderGuestContext {
            user: context.user.id().to_string(),
            key_path: context.key_path.as_str().to_string(),
            action_id: context.action_id,
            payload: context.payload,
        }
    }
}

/// The conversion from a request's context is stated over the views of the
/// result's fields (in the `ensures` of `from`): the texts have no spec-level
/// constructor.
impl vstd::std_specs::convert::FromSpecImpl<ContextProviderContext> for ContextProviderGuestContext {
    open spec fn obeys_from_spec() -> bool {
        false
    }

    open spec fn from_spec(v: ContextProviderContext) -> ContextProviderGuestContext {
        arbitrary()
    }
}

#[derive(Debug)]
pub enum WasmContextProviderError {
    ModuleFailed,
    InstantiateFailed,
    GetFuncFailed,
    GetMemoryFailed,
    AllocFailed,
    MemoryWriteFailed,
    MemoryReadFailed,
    CallFailed,
}

/// The signed 32-bit number that four little-endian bytes hold.
pub open spec fn le_i32(b: Seq<u8>) -> int {
    let u = b[0] + 256 * b[1] + 65536 * b[2] + 16777216 * b[3];
    if u < 0x8000_0000 {
        u
    } else {
        u - 0x1_0000_0000
    }
}

/// The length of the result that a guest announces in the four bytes before it.
/// A negative length is refused.
pub fn result_length(prefix: &[u8]) -> (r: Result<usize, WasmContextProviderError>)
    requires
        prefix@.len() == 4,
    ensures
        match r {
            Ok(n) => 0 <= le_i32(prefix@) && n == le_i32(prefix@),
            Err(e) => le_i32(prefix@) < 0 && e is MemoryReadFailed,
        },
{
    let u: u32 = prefix[0] as u32 + 256 * (prefix[1] as u32) + 65536 * (prefix[2] as u32) + 16777216 * (
    prefix[3] as u32);
    if u < 0x8000_0000 {
        Ok(u as usize)
    } else {
        Err(WasmContextProviderError::MemoryReadFailed)
    }
}

/// Where the result data starts: four bytes after the pointer that the guest
/// returned, read as an unsigned address; refused when that overflows.
pub fn result_data_offset(result_ptr: i32) -> (r: Result<usize, WasmContextProviderError>)
    ensures
        match r {
            Ok(offset) => offset == (result_ptr as usize) + 4,
            Err(e) => (result_ptr as usize) + 4 > usize::MAX && e is MemoryReadFailed,
        },
{
    let base = result_ptr as usize;
    match base.checked_add(4) {
        Some(offset) => Ok(offset),
        None => Err(WasmContextProviderError::MemoryReadFailed),
    }
}

/// The bytes that the host hands a guest: the UTF-8 encodings of the user id,
/// the key path and the action id, and the payload.
pub fn guest_arguments(context: &ContextProviderContext) -> (r: (Vec<u8>, Vec<u8>, Vec<u8>, Vec<u8>))
    ensures
        r.0@ == encode_utf8(context.user.spec_id()),
        r.1@ == encode_utf8(context.key_path@),
        r.2@ == encode_utf8(context.action_id@),
        r.3@ == context.payload@,
{
    let user_bytes = vstd::slice::slice_to_vec(context.user.id().as_bytes());
    let key_path_bytes = vstd::slice::slice_to_vec(context.key_path.as_str().as_bytes());
    let action_id_bytes = vstd::slice::slice_to_vec(context.action_id.as_str().as_bytes());
    let payload = vstd::slice::slice_to_vec(context.payload.as_slice());
    (user_bytes, key_path_bytes, action_id_bytes, payload)
}

/// An allocation answer that the host accepts: a pointer other than null.
pub open spec fn alloc_ok(answer: Option<i32>) -> bool {
    answer matches Some(p) && p != 0
}

/// The pointer of an allocation answer (0 when the call failed).
pub open spec fn answer_ptr(answer: Option<i32>) -> i32 {
    match answer {
        Some(p) => p,
        None => 0,
    }
}

/// Refuses a null pointer from the guest's allocator.
pub fn checked_allocation(ptr: i32) -> (r: Result<i32, WasmContextProviderError>)
    ensures
        r is Err <==> ptr == 0,
        r matches Err(e) ==> e is AllocFailed,
        r matches Ok(p) ==> p == ptr,
{
    if ptr == 0 {
        Err(WasmContextProviderError::AllocFailed)
    } else {
        Ok(ptr)
    }
}

/// Refuses a null pointer from the guest's hook.
pub fn checked_result_pointer(ptr: i32) -> (r: Result<i32, WasmContextProviderError>)
    ensures
        r is Err <==> ptr == 0,
        r matches Err(e) ==> e is CallFailed,
        r matches Ok(p) ==> p == ptr,
{
    if ptr == 0 {
        Err(WasmContextProviderError::CallFailed)
    } else {
        Ok(ptr)
    }
}

/// The parameters handed to the guest's hook: each field's pointer and length,
/// in the order user id, key path, action id, payload.
pub fn hook_arguments(user: (i32, i32), key_path: (i32, i32), action_id: (i32, i32), payload: (i32, i32)) -> (r:
    HookParams)
    ensures
        r == (user.0, user.1, key_path.0, key_path.1, action_id.0, action_id.1, payload.0, payload.1),
{
    (user.0, user.1, key_path.0, key_path.1, action_id.0, action_id.1, payload.0, payload.1)
}

/// Placing `data` in the guest failed: from the calls `before`, the allocator
/// was asked for the data's length and answered `answer`, then, if that answer
/// was a pointer, the data was written there (`written` telling whether the
/// write succeeded), leaving the calls `after` and the error `e`.
pub open spec fn allocation_failed(
    before: Seq<HostEvent>,
    after: Seq<HostEvent>,
    data: Seq<u8>,
    answer: Option<i32>,
    written: bool,
    e: WasmContextProviderError,
) -> bool {
    let len = data.len() as i32;
    if alloc_ok(answer) {
        &&& !written
        &&& after == before.push(HostEvent::Alloc { len, answer }).push(
            HostEvent::Write { offset: answer_ptr(answer) as usize, data, written: false },
        )
        &&& e is MemoryWriteFailed
    } else {
        &&& after == before.push(HostEvent::Alloc { len, answer })
        &&& e is AllocFailed
    }
}

/// Field `i` of `args` was placed: its allocation and write are the calls `2i`
/// and `2i + 1`, and both succeeded.
pub open spec fn field_placed(args: Seq<Seq<u8>>, log: Seq<HostEvent>, i: int) -> bool {
    &&& 2 * i + 1 < log.len()
    &&& log[2 * i] matches HostEvent::Alloc { len, answer }
    &&& len == args[i].len() as i32
    &&& alloc_ok(answer)
    &&& log[2 * i + 1] == HostEvent::Write { offset: answer_ptr(answer) as usize, data: args[i], written: true }
}

/// The fields before `k` were placed, in order.
pub open spec fn placed_before(args: Seq<Seq<u8>>, log: Seq<HostEvent>, k: int) -> bool {
    &&& 2 * k <= log.len()
    &&& forall|i: int| 0 <= i < k ==> #[trigger] field_placed(args, log, i)
}

/// The pointer at which field `i` was placed.
pub open spec fn placed_ptr(log: Seq<HostEvent>, i: int) -> i32 {
    match log[2 * i] {
        HostEvent::Alloc { answer, .. } => answer_ptr(answer),
        _ => 0,
    }
}

/// The parameters that the hook is owed once the four fields are placed.
pub open spec fn owed_params(args: Seq<Seq<u8>>, log: Seq<HostEvent>) -> HookParams {
    (
        placed_ptr(log, 0),
        args[0].len() as i32,
        placed_ptr(log, 1),
        args[1].len() as i32,
        placed_ptr(log, 2),
        args[2].len() as i32,
        placed_ptr(log, 3),
        args[3].len() as i32,
    )
}

/// The placing of field `k` failed after the fields before it were placed, and
/// that ended the call with `r`.
pub open spec fn placing_failed(
    args: Seq<Seq<u8>>,
    log: Seq<HostEvent>,
    k: int,
    r: Result<Seq<u8>, WasmContextProviderError>,
) -> bool {
    &&& 0 <= k < 4
    &&& placed_before(args, log, k)
    &&& r matches Err(e)
    &&& exists|answer: Option<i32>, written: bool|
        #[trigger] allocation_failed(log.take(2 * k), log, args[k], answer, written, e)
}

/// After the four fields were placed: the hook was called with their pointers
/// and lengths; a failed call or a null answer ends in `CallFailed`; otherwise
/// the four bytes at the answer are read as the result's length, and the
/// result is read after them. A failed read, a negative length or an address
/// past `usize::MAX` ends in `MemoryReadFailed`.
pub open spec fn answer_read(args: Seq<Seq<u8>>, log: Seq<HostEvent>, r: Result<Seq<u8>, WasmContextProviderError>) -> bool {
    &&& log.len() >= 9
    &&& log[8] matches HostEvent::Hook { params, answer }
    &&& params == owed_params(args, log)
    &&& if !alloc_ok(answer) {
        log.len() == 9 && r == Err::<Seq<u8>, WasmContextProviderError>(WasmContextProviderError::CallFailed)
    } else {
        let q = answer_ptr(answer);
        &&& log.len() >= 10
        &&& log[9] matches HostEvent::Read { offset, len, answer: prefix }
        &&& offset == q as usize
        &&& len == 4
        &&& match prefix {
            None => log.len() == 10 && r == Err::<Seq<u8>, WasmContextProviderError>(
                WasmContextProviderError::MemoryReadFailed,
            ),
            Some(bytes) => if le_i32(bytes) < 0 || (q as usize) + 4 > usize::MAX {
                log.len() == 10 && r == Err::<Seq<u8>, WasmContextProviderError>(
                    WasmContextProviderError::MemoryReadFailed,
                )
            } else {
                &&& log.len() == 11
                &&& log[10] matches HostEvent::Read { offset: data_offset, len: data_len, answer: data }
                &&& data_offset == (q as usize) + 4
                &&& data_len == le_i32(bytes)
                &&& match data {
                    None => r == Err::<Seq<u8>, WasmContextProviderError>(
                        WasmContextProviderError::MemoryReadFailed,
                    ),
                    Some(d) => r == Ok::<Seq<u8>, WasmContextProviderError>(d),
                }
            },
        }
    }
}

/// The fuel that one call of the hook may spend in the guest, over the start
/// function, the allocations and the hook together; guest code traps when it
/// is spent.
pub const GUEST_FUEL: u64 = 100_000_000;

/// The exports that the host looks up in a fresh instance, in order.
pub open spec fn export_names() -> Seq<Seq<char>> {
    seq!["memory"@, "alloc"@, "pre_action_hook"@]
}

/// The setting up of a guest ended with `e` after looking up `lookups` (each
/// export's name, and whether it was found): with no lookup, instantiation
/// failed; otherwise the exports were looked up in order until the first that
/// was missing, a missing memory giving `GetMemoryFailed` and a missing
/// function `GetFuncFailed`.
pub open spec fn setup_failed(lookups: Seq<(Seq<char>, bool)>, e: WasmContextProviderError) -> bool {
    if lookups.len() == 0 {
        e is InstantiateFailed
    } else {
        let k = lookups.len() - 1;
        &&& k < 3
        &&& forall|i: int| 0 <= i < k ==> #[trigger] lookups[i] == (export_names()[i], true)
        &&& lookups[k] == (export_names()[k], false)
        &&& if k == 0 {
            e is GetMemoryFailed
        } else {
            e is GetFuncFailed
        }
    }
}

/// Why a guest could not be set up: the error, and the exports looked up.
pub struct SetupFailure {
    pub error: WasmContextProviderError,
    /// The exports looked up before the failure, each with whether it was
    /// found.
    pub lookups: Ghost<Seq<(Seq<char>, bool)>>,
}

/// The bytes of the host's answer, or its error.
pub open spec fn bytes_result(r: Result<Vec<u8>, WasmContextProviderError>) -> Result<
    Seq<u8>,
    WasmContextProviderError,
> {
    match r {
        Ok(v) => Ok(v@),
        Err(e) => Err(e),
    }
}

/// How the setting up of a guest for one call ended.
pub enum GuestSetup {
    InstantiateFailed,
    NoMemory,
    NoAlloc,
    NoHook,
    Ready,
}

/// How the setting up of a guest ended, after looking up `lookups`.
pub open spec fn setup_of(lookups: Seq<(Seq<char>, bool)>) -> GuestSetup {
    if lookups.len() == 0 {
        GuestSetup::InstantiateFailed
    } else if lookups.len() == 1 {
        GuestSetup::NoMemory
    } else if lookups.len() == 2 {
        GuestSetup::NoAlloc
    } else {
        GuestSetup::NoHook
    }
}

/// One call of the hook, from the host's side: how the setup ended, and the
/// calls then made on the guest.
pub struct HostRun {
    pub setup: GuestSetup,
    pub log: Seq<HostEvent>,
}

/// The host's part of a call of the hook: with the bytes `args` handed over and
/// the guest's answers recorded in `run`, the call ends with `r`. A failed
/// instantiation, a missing memory and a missing export end the call before
/// the guest is called; then the fields are placed one by one, and the hook is
/// called and its answer read.
pub open spec fn host_meets(args: Seq<Seq<u8>>, run: HostRun, r: Result<Seq<u8>, WasmContextProviderError>) -> bool {
    match run.setup {
        GuestSetup::InstantiateFailed => run.log.len() == 0 && r == Err::<
            Seq<u8>,
            WasmContextProviderError,
        >(WasmContextProviderError::InstantiateFailed),
        GuestSetup::NoMemory => run.log.len() == 0 && r == Err::<Seq<u8>, WasmContextProviderError>(
            WasmContextProviderError::GetMemoryFailed,
        ),
        GuestSetup::NoAlloc => run.log.len() == 0 && r == Err::<Seq<u8>, WasmContextProviderError>(
            WasmContextProviderError::GetFuncFailed,
        ),
        GuestSetup::NoHook => run.log.len() == 0 && r == Err::<Seq<u8>, WasmContextProviderError>(
            WasmContextProviderError::GetFuncFailed,
        ),
        GuestSetup::Ready => {
            ||| exists|k: int| #[trigger] placing_failed(args, run.log, k, r)
            ||| placed_before(args, run.log, 4) && answer_read(args, run.log, r)
        },
    }
}

/// The four byte strings that the host hands a guest for `context`.
pub open spec fn handed_over(context: &ContextProviderContext) -> Seq<Seq<u8>> {
    seq![
        encode_utf8(context.user.spec_id()),
        encode_utf8(context.key_path@),
        encode_utf8(context.action_id@),
        context.payload@,
    ]
}

/// The answer of a context provider, as the host's own error.
pub open spec fn hook_view(r: Result<Vec<u8>, ContextProviderError>) -> Result<Seq<u8>, WasmContextProviderError> {
    match r {
        Ok(v) => Ok(v@),
        Err(ContextProviderError::WasmContextProviderError { source }) => Err(source),
    }
}

/// The bytes `data` were written in full at `ptr` by one of the calls before
/// call `before`, and `len` is their length.
pub open spec fn handed_at(log: Seq<HostEvent>, before: int, ptr: i32, len: i32, data: Seq<u8>) -> bool {
    &&& len == data.len() as i32
    &&& exists|i: int|
        0 <= i < before && #[trigger] log[i] == HostEvent::Write { offset: ptr as usize, data, written: true }
}

/// The call `j` of `log` handed the hook, as its four pairs of parameters, the
/// places and lengths of the UTF-8 bytes of the context's user id, key path and
/// action id, and of its payload, in that order, each written before the call.
pub open spec fn hook_handed(context: &ContextProviderContext, log: Seq<HostEvent>, j: int) -> bool {
    let p = log[j]->params;
    &&& handed_at(log, j, p.0, p.1, encode_utf8(context.user.spec_id()))
    &&& handed_at(log, j, p.2, p.3, encode_utf8(context.key_path@))
    &&& handed_at(log, j, p.4, p.5, encode_utf8(context.action_id@))
    &&& handed_at(log, j, p.6, context.payload@.len() as i32, context.payload@)
    &&& p.7 == context.payload@.len() as i32
}

/// Field `i` of the first `k` placed fields was placed by calls `2i` and
/// `2i + 1`, an allocation and a write, neither of them a call of the hook.
proof fn lemma_placed_calls_are_not_hooks(args: Seq<Seq<u8>>, log: Seq<HostEvent>, k: int, j: int)
    requires
        placed_before(args, log, k),
        0 <= j < 2 * k,
    ensures
        !(log[j] is Hook),
{
    let i = j / 2;
    assert(0 <= i < k);
    assert(field_placed(args, log, i));
    assert(j == 2 * i || j == 2 * i + 1);
}

/// Whenever the host calls a guest's hook, its first pair of parameters is the
/// place and length of the user id's UTF-8 bytes, the second that of the key
/// path, the third that of the action id and the fourth that of the payload,
/// each written in full before the call.
pub proof fn lemma_hook_sees_the_fields(
    context: &ContextProviderContext,
    log: Seq<HostEvent>,
    r: Result<Seq<u8>, WasmContextProviderError>,
    j: int,
)
    requires
        host_meets(handed_over(context), HostRun { setup: GuestSetup::Ready, log }, r),
        0 <= j < log.len(),
        log[j] is Hook,
    ensures
        hook_handed(context, log, j),
{
    let args = handed_over(context);
    if exists|k: int| #[trigger] placing_failed(args, log, k, r) {
        let k = choose|k: int| #[trigger] placing_failed(args, log, k, r);
        let e = r->Err_0;
        let (answer, written) = choose|answer: Option<i32>, written: bool|
            #[trigger] allocation_failed(log.take(2 * k), log, args[k], answer, written, e);
        if j < 2 * k {
            lemma_placed_calls_are_not_hooks(args, log, k, j);
        } else {
            assert(log[j] == log.take(2 * k + 2)[j] || log[j] == log.take(2 * k + 1)[j]);
        }
        assert(false);
    } else {
        assert(placed_before(args, log, 4) && answer_read(args, log, r));
        if j < 8 {
            lemma_placed_calls_are_not_hooks(args, log, 4, j);
        }
        assert(j == 8);
        assert(field_placed(args, log, 0));
        assert(field_placed(args, log, 1));
        assert(field_placed(args, log, 2));
        assert(field_placed(args, log, 3));
        assert(log[1] == HostEvent::Write { offset: placed_ptr(log, 0) as usize, data: args[0], written: true });
        assert(log[3] == HostEvent::Write { offset: placed_ptr(log, 1) as usize, data: args[1], written: true });
        assert(log[5] == HostEvent::Write { offset: placed_ptr(log, 2) as usize, data: args[2], written: true });
        assert(log[7] == HostEvent::Write { offset: placed_ptr(log, 3) as usize, data: args[3], written: true });
    }
}

/// A context provider that runs a WebAssembly guest module.
pub struct WasmContextProvider {
    compiled: CompiledModule,
}

impl WasmContextProvider {
    /// The bytes that the module was compiled from.
    pub closed spec fn source(&self) -> Seq<u8> {
        self.compiled.source@
    }

    /// Compiles `wasm_bytes` for `engine`'s configuration with fuel metering
    /// on, so that guest code runs with at most `GUEST_FUEL` units of fuel per
    /// call of the hook.
    pub fn from_module(engine: &Engine, wasm_bytes: &[u8]) -> (r: Result<Self, WasmContextProviderError>)
        ensures
            r matches Ok(p) ==> p.source() == wasm_bytes@,
            r matches Err(e) ==> e is ModuleFailed,
    {
        Self::from_compiled(compile_metered(engine, wasm_bytes))
    }

    /// A provider for the outcome of a compilation: one exactly when the
    /// compilation succeeded, running the module compiled.
    fn from_compiled(compiled: Result<CompiledModule, wasmtime::Error>) -> (r: Result<
        Self,
        WasmContextProviderError,
    >)
        ensures
            r is Ok <==> compiled is Ok,
            r matches Ok(p) ==> compiled matches Ok(c) && p.source() == c.source@,
            r matches Err(e) ==> e is ModuleFailed,
    {
        match compiled {
            Ok(compiled) => Ok(WasmContextProvider { compiled }),
            Err(_) => Err(WasmContextProviderError::ModuleFailed),
        }
    }

    /// Has the guest allocate room for `data` and copies `data` there; returns
    /// the guest's pointer and the length.
    fn alloc_and_write(&self, guest: &mut Guest, data: &[u8]) -> (r: Result<(i32, i32), WasmContextProviderError>)
        ensures
            match r {
                Ok((ptr, len)) => {
                    &&& ptr != 0
                    &&& len == data@.len() as i32
                    &&& final(guest).log@ == old(guest).log@.push(
                        HostEvent::Alloc { len, answer: Some(ptr) },
                    ).push(HostEvent::Write { offset: ptr as usize, data: data@, written: true })
                },
                Err(e) => exists|answer: Option<i32>, written: bool|
                    #[trigger] allocation_failed(old(guest).log@, final(guest).log@, data@, answer, written, e),
            },
            final(guest).source() == old(guest).source(),
    {
        let len = data.len() as i32;
        let answer = guest_alloc(guest, len);
        let ptr = match answer {
            Some(ptr) => ptr,
            None => {
                assert(allocation_failed(old(guest).log@, guest.log@, data@, answer, false, WasmContextProviderError::AllocFailed));
                return Err(WasmContextProviderError::AllocFailed);
            },
        };
        let ptr = match checked_allocation(ptr) {
            Ok(ptr) => ptr,
            Err(e) => {
                assert(allocation_failed(old(guest).log@, guest.log@, data@, answer, false, e));
                return Err(e);
            },
        };
        let written = guest_write(guest, ptr as usize, data);
        if !written {
            assert(allocation_failed(old(guest).log@, guest.log@, data@, answer, false, WasmContextProviderError::MemoryWriteFailed));
            return Err(WasmContextProviderError::MemoryWriteFailed);
        }
        Ok((ptr, len))
    }

    /// A fresh instance of the module, in a store of its own with
    /// `GUEST_FUEL` units of fuel, with its memory and its `alloc` and
    /// `pre_action_hook` exports found; no call has been made on it yet. A
    /// failure records the exports looked up until then.
    pub fn new_guest(&self) -> (r: Result<Guest, SetupFailure>)
        ensures
            r matches Ok(g) ==> {
                &&& g.calls() == Seq::<HostEvent>::empty()
                &&& g.source() == self.source()
                &&& g.fuel() == GUEST_FUEL
            },
            r matches Err(f) ==> setup_failed(f.lookups@, f.error),
    {
        proof {
            reveal_strlit("memory");
            reveal_strlit("alloc");
            reveal_strlit("pre_action_hook");
        }
        let instantiated = match instantiate_guest(&self.compiled, GUEST_FUEL) {
            Some(i) => i,
            None => {
                return Err(
                    SetupFailure { error: WasmContextProviderError::InstantiateFailed, lookups: Ghost(Seq::empty()) },
                );
            },
        };
        let name = "memory";
        let with_memory = match find_memory(instantiated, name) {
            Some(g) => g,
            None => {
                let ghost lookups = seq![(name@, false)];
                return Err(SetupFailure { error: WasmContextProviderError::GetMemoryFailed, lookups: Ghost(lookups) });
            },
        };
        let ghost found = seq![(name@, true)];
        let name = "alloc";
        let with_alloc = match find_alloc(with_memory, name) {
            Some(g) => g,
            None => {
                let ghost lookups = found.push((name@, false));
                return Err(SetupFailure { error: WasmContextProviderError::GetFuncFailed, lookups: Ghost(lookups) });
            },
        };
        let ghost found = found.push((name@, true));
        let name = "pre_action_hook";
        let parts = match find_hook(with_alloc, name) {
            Some(g) => g,
            None => {
                let ghost lookups = found.push((name@, false));
                return Err(SetupFailure { error: WasmContextProviderError::GetFuncFailed, lookups: Ghost(lookups) });
            },
        };
        Ok(Guest { parts, log: Ghost(Seq::empty()) })
    }

    /// The host's side of one call of the hook on a fresh guest: places the
    /// user id, key path, action id and payload in the guest, calls its hook
    /// with their pointers and lengths, and reads back the bytes that the hook
    /// framed with their length. The calls made on the guest, as recorded,
    /// and the result are as `host_meets` says.
    pub fn run_hook(&self, guest: &mut Guest, context: &ContextProviderContext) -> (r: Result<
        Vec<u8>,
        WasmContextProviderError,
    >)
        requires
            old(guest).calls() == Seq::<HostEvent>::empty(),
        ensures
            final(guest).source() == old(guest).source(),
            host_meets(
                handed_over(context),
                HostRun { setup: GuestSetup::Ready, log: final(guest).calls() },
                bytes_result(r),
            ),
            forall|j: int|
                0 <= j < final(guest).calls().len() && (#[trigger] final(guest).calls()[j] is Hook) ==> hook_handed(
                    context,
                    final(guest).calls(),
                    j,
                ),
    {
        let r = self.place_and_call(guest, context);
        proof {
            assert forall|j: int|
                0 <= j < guest.calls().len() && (#[trigger] guest.calls()[j] is Hook) implies hook_handed(
                    context,
                    guest.calls(),
                    j,
                ) by {
                lemma_hook_sees_the_fields(context, guest.calls(), bytes_result(r), j);
            }
        }
        r
    }

    /// The steps of `run_hook`: placing the fields, calling the hook and
    /// reading its answer.
    fn place_and_call(&self, guest: &mut Guest, context: &ContextProviderContext) -> (r: Result<
        Vec<u8>,
        WasmContextProviderError,
    >)
        requires
            old(guest).calls() == Seq::<HostEvent>::empty(),
        ensures
            final(guest).source() == old(guest).source(),
            host_meets(
                handed_over(context),
                HostRun { setup: GuestSetup::Ready, log: final(guest).calls() },
                bytes_result(r),
            ),
    {

        let (user_bytes, key_path_bytes, action_id_bytes, payload) = guest_arguments(context);
        let ghost args = handed_over(context);
        assert(args[0] == user_bytes@ && args[1] == key_path_bytes@ && args[2] == action_id_bytes@ && args[3] == payload@);

        let ghost log0 = guest.log@;
        let user = match self.alloc_and_write(guest, user_bytes.as_slice()) {
            Ok(p) => p,
            Err(e) => {
                assert(guest.log@.take(0) =~= log0);
                proof { lemma_placing_failed(args, guest.log@, 0, e); }
                return Err(e);
            },
        };
        assert(field_placed(args, guest.log@, 0));
        let ghost log1 = guest.log@;
        let key_path = match self.alloc_and_write(guest, key_path_bytes.as_slice()) {
            Ok(p) => p,
            Err(e) => {
                assert(guest.log@.take(2) =~= log1);
                proof { lemma_placing_failed(args, guest.log@, 1, e); }
                return Err(e);
            },
        };
        assert(field_placed(args, guest.log@, 1));
        let ghost log2 = guest.log@;
        let action_id = match self.alloc_and_write(guest, action_id_bytes.as_slice()) {
            Ok(p) => p,
            Err(e) => {
                assert(guest.log@.take(4) =~= log2);
                proof { lemma_placing_failed(args, guest.log@, 2, e); }
                return Err(e);
            },
        };
        assert(field_placed(args, guest.log@, 2));
        let ghost log3 = guest.log@;
        let payload_place = match self.alloc_and_write(guest, payload.as_slice()) {
            Ok(p) => p,
            Err(e) => {
                assert(guest.log@.take(6) =~= log3);
                proof { lemma_placing_failed(args, guest.log@, 3, e); }
                return Err(e);
            },
        };
        assert(field_placed(args, guest.log@, 3));
        assert(placed_before(args, guest.log@, 4));

        let params = hook_arguments(user, key_path, action_id, payload_place);
        assert(params == owed_params(args, guest.log@));
        let ghost placed = guest.log@;
        let answer = guest_hook(guest, params);
        assert(guest.log@.take(8) =~= placed);
        assert(placed_before(args, guest.log@, 4));
        let result_ptr = match answer {
            Some(ptr) => ptr,
            None => {
                proof { lemma_answer_ends(args, guest.log@, Err(WasmContextProviderError::CallFailed)); }
                return Err(WasmContextProviderError::CallFailed);
            },
        };
        let result_ptr = match checked_result_pointer(result_ptr) {
            Ok(ptr) => ptr,
            Err(e) => {
                proof { lemma_answer_ends(args, guest.log@, Err(e)); }
                return Err(e);
            },
        };
        let ghost called = guest.log@;

        // The result starts with its length, a little-endian i32.
        let mut result_len_bytes: Vec<u8> = vec![0u8, 0u8, 0u8, 0u8];
        let read = guest_read(guest, result_ptr as usize, result_len_bytes.as_mut_slice());
        assert(guest.log@.take(8) =~= placed);
        assert(guest.log@.take(9) =~= called);
        assert(placed_before(args, guest.log@, 4));
        if !read {
            proof { lemma_answer_ends(args, guest.log@, Err(WasmContextProviderError::MemoryReadFailed)); }
            return Err(WasmContextProviderError::MemoryReadFailed);
        }
        let result_len = match result_length(result_len_bytes.as_slice()) {
            Ok(n) => n,
            Err(e) => {
                proof { lemma_answer_ends(args, guest.log@, Err(e)); }
                return Err(e);
            },
        };
        let data_offset = match result_data_offset(result_ptr) {
            Ok(offset) => offset,
            Err(e) => {
                proof { lemma_answer_ends(args, guest.log@, Err(e)); }
                return Err(e);
            },
        };
        let ghost prefix_read = guest.log@;

        // The data follows the length.
        let mut result_bytes: Vec<u8> = vec![0u8; result_len];
        let read = guest_read(guest, data_offset, result_bytes.as_mut_slice());
        assert(guest.log@.take(8) =~= placed);
        assert(guest.log@.take(10) =~= prefix_read);
        assert(placed_before(args, guest.log@, 4));
        if !read {
            proof { lemma_answer_ends(args, guest.log@, Err(WasmContextProviderError::MemoryReadFailed)); }
            return Err(WasmContextProviderError::MemoryReadFailed);
        }
        proof { lemma_answer_ends(args, guest.log@, Ok(result_bytes@)); }
        Ok(result_bytes)
    }
}

impl ContextProvider for WasmContextProvider {
    /// Runs the guest's hook on the context in a fresh instance of the module
    /// (`new_guest`, then `run_hook`): hands it the user id, key path, action
    /// id and payload, and reads back the bytes that it frames with their
    /// length.
    fn pre_action_hook(&self, context: &ContextProviderContext) -> (r: Result<
        Vec<u8>,
        ContextProviderError,
    >)
        ensures
            exists|run: HostRun| #[trigger] host_meets(handed_over(context), run, hook_view(r)),
    {
        let mut guest = match self.new_guest() {
            Ok(g) => g,
            Err(f) => {
                let ghost run = HostRun { setup: setup_of(f.lookups@), log: Seq::empty() };
                assert(host_meets(handed_over(context), run, Err(f.error)));
                return hook_failure(f.error);
            },
        };
        let r = self.run_hook(&mut guest, context);
        let ghost run = HostRun { setup: GuestSetup::Ready, log: guest.calls() };
        match r {
            Ok(bytes) => {
                assert(host_meets(handed_over(context), run, hook_view(Ok(bytes))));
                Ok(bytes)
            },
            Err(e) => {
                assert(host_meets(handed_over(context), run, Err(e)));
                hook_failure(e)
            },
        }
    }
}

/// The host's error as a context provider's answer.
fn hook_failure(e: WasmContextProviderError) -> (r: Result<Vec<u8>, ContextProviderError>)
    ensures
        hook_view(r) == Err::<Seq<u8>, WasmContextProviderError>(e),
{
    Err(ContextProviderError::WasmContextProviderError { source: e })
}

/// A call that placed the four fields and read the hook's answer ends as
/// `answer_read` says.
proof fn lemma_answer_ends(args: Seq<Seq<u8>>, log: Seq<HostEvent>, r: Result<Seq<u8>, WasmContextProviderError>)
    requires
        placed_before(args, log, 4),
        answer_read(args, log, r),
    ensures
        host_meets(args, HostRun { setup: GuestSetup::Ready, log }, r),
{
}

/// A failed placing of field `k`, right after the fields before it were
/// placed, is how the call ends.
proof fn lemma_placing_failed(args: Seq<Seq<u8>>, log: Seq<HostEvent>, k: int, e: WasmContextProviderError)
    requires
        0 <= k < 4,
        placed_before(args, log.take(2 * k), k),
        exists|answer: Option<i32>, written: bool|
            #[trigger] allocation_failed(log.take(2 * k), log, args[k], answer, written, e),
    ensures
        host_meets(args, HostRun { setup: GuestSetup::Ready, log }, Err(e)),
{
    let (answer, written) = choose|answer: Option<i32>, written: bool|
        #[trigger] allocation_failed(log.take(2 * k), log, args[k], answer, written, e);
    assert forall|i: int| 0 <= i < k implies #[trigger] field_placed(args, log, i) by {
        assert(field_placed(args, log.take(2 * k), i));
    }
    assert(placing_failed(args, log, k, Err(e)));
}

} // verus!
