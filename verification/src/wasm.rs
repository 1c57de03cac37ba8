//! The boundary to the wasmtime runtime. Everything in this file is trusted:
//! Verus believes the contracts below and does not look into wasmtime.
//!
//! A store is modelled by three sets of identifiers: the component instances
//! that live in it, the component functions that were looked up in it, and
//! those among the functions whose last call returned and has not been
//! followed by a post-return yet.
//!
//! A linker is modelled by what it defines, name by name. wasmtime lets an
//! interface be opened once only, so that all its host functions are
//! defined through one `LinkerInstance`, which borrows the linker: a
//! session. `session_end` names what the linker defines when the session is
//! over; the session's last definition gives the `LinkerInstance` up and
//! so says what that is.
//!
//! wasmtime documents panics for calls through an asynchronous store. A
//! store is asynchronous only where wasmtime is built with its `async`
//! feature, which this crate does not enable, so the contracts below leave
//! no such case out.

use vstd::prelude::*;
use crate::binder::answer;
use crate::convert::kinds_of_declared;
use crate::value::Value;

verus! {

/// wasmtime's `Engine`, of which nothing is seen here.
#[verifier::external_type_specification]
#[verifier::external_body]
pub struct ExEngine(wasmtime::Engine);

/// wasmtime's `Store`, of which nothing is seen here.
#[verifier::external_type_specification]
#[verifier::external_body]
#[verifier::reject_recursive_types(T)]
pub struct ExStore<T>(wasmtime::Store<T>);

/// wasmtime's `Component`, of which nothing is seen here.
#[verifier::external_type_specification]
#[verifier::external_body]
pub struct ExComponent(wasmtime::component::Component);

/// wasmtime's `Linker`, of which nothing is seen here.
#[verifier::external_type_specification]
#[verifier::external_body]
#[verifier::reject_recursive_types(T)]
pub struct ExLinker<T>(wasmtime::component::Linker<T>);

/// wasmtime's `LinkerInstance`, of which nothing is seen here.
#[verifier::external_type_specification]
#[verifier::external_body]
#[verifier::reject_recursive_types(T)]
pub struct ExLinkerInstance<'a, T>(wasmtime::component::LinkerInstance<'a, T>);

/// wasmtime's `InstancePre`, of which nothing is seen here.
#[verifier::external_type_specification]
#[verifier::external_body]
#[verifier::reject_recursive_types(T)]
pub struct ExInstancePre<T>(wasmtime::component::InstancePre<T>);

/// wasmtime's `Instance`, of which nothing is seen here.
#[verifier::external_type_specification]
#[verifier::external_body]
pub struct ExInstance(wasmtime::component::Instance);

/// wasmtime's `ComponentExportIndex`, of which nothing is seen here.
#[verifier::external_type_specification]
#[verifier::external_body]
pub struct ExComponentExportIndex(wasmtime::component::ComponentExportIndex);

/// wasmtime's `Func`, of which nothing is seen here.
#[verifier::external_type_specification]
#[verifier::external_body]
pub struct ExFunc(wasmtime::component::Func);

/// wasmtime's `Val`, with its variants.
#[verifier::external_type_specification]
pub struct ExVal(wasmtime::component::Val);

/// wasmtime's `ResourceAny`, of which nothing is seen here.
#[verifier::external_type_specification]
#[verifier::external_body]
pub struct ExResourceAny(wasmtime::component::ResourceAny);

/// wasmtime's `Type`, with its variants.
#[verifier::external_type_specification]
pub struct ExType(wasmtime::component::Type);

/// wasmtime's `List`, of which nothing is seen here.
#[verifier::external_type_specification]
#[verifier::external_body]
pub struct ExListType(wasmtime::component::types::List);

/// wasmtime's `Record`, of which nothing is seen here.
#[verifier::external_type_specification]
#[verifier::external_body]
pub struct ExRecordType(wasmtime::component::types::Record);

/// wasmtime's `Tuple`, of which nothing is seen here.
#[verifier::external_type_specification]
#[verifier::external_body]
pub struct ExTupleType(wasmtime::component::types::Tuple);

/// wasmtime's `Variant`, of which nothing is seen here.
#[verifier::external_type_specification]
#[verifier::external_body]
pub struct ExVariantType(wasmtime::component::types::Variant);

/// wasmtime's `Enum`, of which nothing is seen here.
#[verifier::external_type_specification]
#[verifier::external_body]
pub struct ExEnumType(wasmtime::component::types::Enum);

/// wasmtime's `OptionType`, of which nothing is seen here.
#[verifier::external_type_specification]
#[verifier::external_body]
pub struct ExOptionType(wasmtime::component::types::OptionType);

/// wasmtime's `ResultType`, of which nothing is seen here.
#[verifier::external_type_specification]
#[verifier::external_body]
pub struct ExResultType(wasmtime::component::types::ResultType);

/// wasmtime's `Flags`, of which nothing is seen here.
#[verifier::external_type_specification]
#[verifier::external_body]
pub struct ExFlagsType(wasmtime::component::types::Flags);

/// wasmtime's `ResourceType`, of which nothing is seen here.
#[verifier::external_type_specification]
#[verifier::external_body]
pub struct ExResourceType(wasmtime::component::ResourceType);

/// anyhow's `Error`, of which nothing is seen here.
#[verifier::external_type_specification]
#[verifier::external_body]
pub struct ExError(anyhow::Error);

/// The three memory settings that the configuration of an engine was given,
/// in bytes: the reservation for each linear memory, the reservation for
/// its growth, and the size of its guard region. `None` stands for a
/// setting that was not given, for which wasmtime takes its default.
pub uninterp spec fn engine_memory(engine: wasmtime::Engine) -> (
    Option<u64>,
    Option<u64>,
    Option<u64>,
);

/// The identifier under which a store knows a component instance.
pub uninterp spec fn instance_id(instance: wasmtime::component::Instance) -> int;

/// The identifier under which a store knows a component function handle.
pub uninterp spec fn function_id(function: wasmtime::component::Func) -> int;

/// The component instances that live in `store`.
pub uninterp spec fn store_instances(store: wasmtime::Store<()>) -> Set<int>;

/// The component function handles that live in `store`.
pub uninterp spec fn store_functions(store: wasmtime::Store<()>) -> Set<int>;

/// The function handles of `store` that hold the result of a call that
/// returned and was not followed by a post-return yet.
pub uninterp spec fn store_pending(store: wasmtime::Store<()>) -> Set<int>;

/// The parameter types that `Func::params` reports for `function`, without
/// their names.
pub uninterp spec fn param_types(function: wasmtime::component::Func) -> Seq<
    wasmtime::component::Type,
>;

/// The result types that `Func::results` reports for `function`.
pub uninterp spec fn result_types(function: wasmtime::component::Func) -> Seq<
    wasmtime::component::Type,
>;

/// The parameter and result types that `component` declares for the
/// function that `Instance::get_func` finds at `index`; `None` where it
/// finds no function there. A type that mentions a resource is made anew
/// in every instance, so that only the kinds of these types are the same
/// from instance to instance: the name stands for the types of one of
/// them.
pub uninterp spec fn export_function_types(
    component: wasmtime::component::Component,
    index: wasmtime::component::ComponentExportIndex,
) -> Option<(Seq<wasmtime::component::Type>, Seq<wasmtime::component::Type>)>;

/// What a linker defines, by name: at its top level each name stands for a
/// host function (`None`) or for an interface (`Some`) with the names of the
/// host functions defined in it.
pub uninterp spec fn linker_defines(linker: wasmtime::component::Linker<()>) -> Map<
    Seq<char>,
    Option<Set<Seq<char>>>,
>;

/// What the linker of a session defines as the session stands: the linker
/// is borrowed by the `LinkerInstance` for as long as the session lasts.
pub uninterp spec fn session_defines(group: wasmtime::component::LinkerInstance<'_, ()>) -> Map<
    Seq<char>,
    Option<Set<Seq<char>>>,
>;

/// Where a session defines: at the linker's top level (`None`) or in the
/// interface of the given name.
pub uninterp spec fn session_level(group: wasmtime::component::LinkerInstance<'_, ()>) -> Option<
    Seq<char>,
>;

/// What the linker of a session defines when the session is over, that is
/// when the `LinkerInstance` is dropped and the borrow ends.
pub uninterp spec fn session_end(group: wasmtime::component::LinkerInstance<'_, ()>) -> Map<
    Seq<char>,
    Option<Set<Seq<char>>>,
>;

/// Tells whether `Linker::instantiate_pre` matches the imports of
/// `component` against a linker that defines `defines`. Every host function
/// of this crate is defined with `func_new`, which matches an import of any
/// function type, so that the names decide.
pub uninterp spec fn links(
    defines: Map<Seq<char>, Option<Set<Seq<char>>>>,
    component: wasmtime::component::Component,
) -> bool;

/// What a linker defines that defines nothing.
pub open spec fn nothing_defined() -> Map<Seq<char>, Option<Set<Seq<char>>>> {
    Map::empty()
}

/// The names of the host functions that `defines` holds in the interface
/// `interface`.
pub open spec fn interface_names(
    defines: Map<Seq<char>, Option<Set<Seq<char>>>>,
    interface: Seq<char>,
) -> Set<Seq<char>> {
    if defines.dom().contains(interface) && defines[interface] is Some {
        defines[interface]->Some_0
    } else {
        Set::empty()
    }
}

/// Tells whether `name` is new at `level` of `defines`. The runtime refuses
/// a definition exactly where the name is already defined at that level.
pub open spec fn admits(
    defines: Map<Seq<char>, Option<Set<Seq<char>>>>,
    level: Option<Seq<char>>,
    name: Seq<char>,
) -> bool {
    match level {
        None => !defines.dom().contains(name),
        Some(interface) => !interface_names(defines, interface).contains(name),
    }
}

/// `defines` with a host function `name` more at `level`.
pub open spec fn with_function(
    defines: Map<Seq<char>, Option<Set<Seq<char>>>>,
    level: Option<Seq<char>>,
    name: Seq<char>,
) -> Map<Seq<char>, Option<Set<Seq<char>>>> {
    match level {
        None => defines.insert(name, None),
        Some(interface) => defines.insert(
            interface,
            Some(interface_names(defines, interface).insert(name)),
        ),
    }
}

/// The description, as `error_text` gives it, of the error with which
/// `Linker::instantiate_pre` refuses to match the imports of `component`
/// against a linker that defines `defines`.
pub uninterp spec fn link_refusal(
    defines: Map<Seq<char>, Option<Set<Seq<char>>>>,
    component: wasmtime::component::Component,
) -> Seq<char>;

/// The names of the imports that a component declares at its top level.
pub uninterp spec fn component_imports(component: wasmtime::component::Component) -> Set<
    Seq<char>,
>;

/// The message of an error with its chain of causes, as `anyhow` formats it
/// under `{:#}`.
pub uninterp spec fn error_text(error: anyhow::Error) -> Seq<char>;

/// The component whose imports `Linker::instantiate_pre` matched to make
/// `linked`.
pub uninterp spec fn linked_component(
    linked: wasmtime::component::InstancePre<()>,
) -> wasmtime::component::Component;

/// The component that `instance` is an instance of.
pub uninterp spec fn instance_component(
    instance: wasmtime::component::Instance,
) -> wasmtime::component::Component;

/// Tells whether `Component::from_binary` accepts `binary` under `engine`:
/// whether the bytes are a component that passes validation and compiles.
pub uninterp spec fn accepts(engine: wasmtime::Engine, binary: Seq<u8>) -> bool;

/// The binary that `Component::from_binary` compiled `component` from.
pub uninterp spec fn component_source(component: wasmtime::component::Component) -> Seq<u8>;

/// The lists of values that `Func::call` can hand back where `function` is
/// called with `args` in the state in which `store` is. What the component
/// computes is not described here: the set only gives a name to the
/// outcomes of the call.
pub uninterp spec fn call_answers(
    store: wasmtime::Store<()>,
    function: wasmtime::component::Func,
    args: Seq<wasmtime::component::Val>,
) -> Set<Seq<wasmtime::component::Val>>;

/// What `Instance::get_export` finds under `name` at the level of `parent`
/// (the top level where `parent` is `None`) in an instance of `component`:
/// the lookup reads the component of the instance and nothing else.
pub uninterp spec fn export_lookup(
    component: wasmtime::component::Component,
    parent: Option<wasmtime::component::ComponentExportIndex>,
    name: Seq<char>,
) -> Option<wasmtime::component::ComponentExportIndex>;

/// `Engine::default`: an engine made from `Config::default`. Claims that
/// none of the three memory settings was given.
#[verifier::external_body]
pub(crate) fn new_engine() -> (engine: wasmtime::Engine)
    ensures
        engine_memory(engine) == (None::<u64>, None::<u64>, None::<u64>),
{
    wasmtime::Engine::default()
}

/// `Component::from_binary`: validates and compiles a component binary.
/// Claims that whether a component comes back is a function of the engine
/// and the bytes alone, and that one that comes back was compiled from
/// `binary`.
#[verifier::external_body]
pub(crate) fn compile(engine: &wasmtime::Engine, binary: &Vec<u8>) -> (compiled: Result<
    wasmtime::component::Component,
    anyhow::Error,
>)
    ensures
        compiled is Ok <==> accepts(*engine, binary@),
        compiled matches Ok(component) ==> component_source(component) == binary@,
{
    wasmtime::component::Component::from_binary(engine, binary.as_slice())
}

/// `Linker::new`: claims that the linker defines nothing.
#[verifier::external_body]
pub(crate) fn new_linker(engine: &wasmtime::Engine) -> (made: wasmtime::component::Linker<()>)
    ensures
        linker_defines(made) == nothing_defined(),
{
    wasmtime::component::Linker::new(engine)
}

/// `Linker::root`: a session at the linker's top level, where the imports
/// that belong to no interface are defined. Claims that the session starts
/// from what the linker defines, and that the linker defines afterwards
/// what the session has come to when it is over.
#[verifier::external_body]
pub(crate) fn open_root<'a>(
    linker: &'a mut wasmtime::component::Linker<()>,
) -> (group: wasmtime::component::LinkerInstance<'a, ()>)
    ensures
        session_level(group) is None,
        session_defines(group) == linker_defines(*old(linker)),
        linker_defines(*final(linker)) == session_end(group),
{
    linker.root()
}

/// `Linker::instance`: a session in a new, empty interface of the given
/// name. Claims that the runtime refuses exactly where the name is already
/// defined at the linker's top level, and then leaves the linker as it was;
/// that a session starts from what the linker defines and the empty
/// interface; and that the linker defines afterwards what the session has
/// come to when it is over.
#[verifier::external_body]
pub(crate) fn open_namespace<'a>(
    linker: &'a mut wasmtime::component::Linker<()>,
    namespace: &str,
) -> (group: Result<wasmtime::component::LinkerInstance<'a, ()>, anyhow::Error>)
    ensures
        group is Ok <==> !linker_defines(*old(linker)).dom().contains(namespace@),
        match group {
            Ok(session) => {
                &&& session_level(session) == Some(namespace@)
                &&& session_defines(session) == linker_defines(*old(linker)).insert(
                    namespace@,
                    Some(Set::<Seq<char>>::empty()),
                )
                &&& linker_defines(*final(linker)) == session_end(session)
            },
            Err(_) => linker_defines(*final(linker)) == linker_defines(*old(linker)),
        },
{
    linker.instance(namespace)
}

/// `LinkerInstance::func_new`: defines a host function that answers each
/// call through `answer`. Claims that the runtime refuses exactly where the
/// name is already defined at the session's level, and then changes
/// nothing; that otherwise the session holds the function beside what it
/// held; and that the session stays the same session.
#[verifier::external_body]
pub(crate) fn define_function<F: Fn(Vec<Value>) -> Vec<Value> + Send + Sync + 'static>(
    group: &mut wasmtime::component::LinkerInstance<'_, ()>,
    name: &str,
    implementation: F,
) -> (defined: Result<(), anyhow::Error>)
    requires
        forall|args: Vec<Value>| implementation.requires((args,)),
    ensures
        session_level(*final(group)) == session_level(*old(group)),
        session_end(*final(group)) == session_end(*old(group)),
        defined is Ok <==> admits(session_defines(*old(group)), session_level(*old(group)), name@),
        session_defines(*final(group)) == if defined is Ok {
            with_function(session_defines(*old(group)), session_level(*old(group)), name@)
        } else {
            session_defines(*old(group))
        },
{
    group.func_new(name, move |_, args, results| answer(&implementation, args, results))
}

/// `LinkerInstance::func_new` as the last definition of a session: the
/// `LinkerInstance` is given up, so that the session is over when this
/// returns. Claims what `define_function` claims of the definition, and
/// that what the linker defines when the session is over is what the
/// session has then come to.
#[verifier::external_body]
pub(crate) fn define_last_function<F: Fn(Vec<Value>) -> Vec<Value> + Send + Sync + 'static>(
    group: wasmtime::component::LinkerInstance<'_, ()>,
    name: &str,
    implementation: F,
) -> (defined: Result<(), anyhow::Error>)
    requires
        forall|args: Vec<Value>| implementation.requires((args,)),
    ensures
        defined is Ok <==> admits(session_defines(group), session_level(group), name@),
        session_end(group) == if defined is Ok {
            with_function(session_defines(group), session_level(group), name@)
        } else {
            session_defines(group)
        },
{
    let mut group = group;
    group.func_new(name, move |_, args, results| answer(&implementation, args, results))
}

/// `anyhow::Error::msg`: an error that carries `text`. Nothing is claimed
/// of it.
#[verifier::external_body]
pub(crate) fn fault(text: &str) -> (error: anyhow::Error) {
    anyhow::Error::msg(text.to_string())
}

/// `Linker::instantiate_pre`: matches the component's imports against the
/// linker's definitions. Claims that whether they match is a function of
/// what the linker defines and of the component alone, and so is the
/// description of a refusal; that a component without imports is matched by
/// every linker; and that what comes back is made for this component.
#[verifier::external_body]
pub(crate) fn link(
    linker: &wasmtime::component::Linker<()>,
    component: &wasmtime::component::Component,
) -> (linked: Result<wasmtime::component::InstancePre<()>, anyhow::Error>)
    ensures
        linked is Ok <==> links(linker_defines(*linker), *component),
        linked matches Err(refusal) ==> error_text(refusal) == link_refusal(
            linker_defines(*linker),
            *component,
        ),
        component_imports(*component) == Set::<Seq<char>>::empty() ==> linked is Ok,
        linked matches Ok(made) ==> linked_component(made) == *component,
{
    linker.instantiate_pre(component)
}

/// `Store::new`, with no host data. Nothing is claimed of the store.
#[verifier::external_body]
pub(crate) fn new_store(engine: &wasmtime::Engine) -> (store: wasmtime::Store<()>) {
    wasmtime::Store::new(engine, ())
}

/// `InstancePre::instantiate`: claims that an instance that comes back
/// lives in the store it was made in and is an instance of the component
/// that `linked` was made for.
#[verifier::external_body]
pub(crate) fn start_instance(
    linked: &wasmtime::component::InstancePre<()>,
    store: &mut wasmtime::Store<()>,
) -> (started: Result<wasmtime::component::Instance, anyhow::Error>)
    ensures
        started matches Ok(instance) ==> store_instances(*final(store)).contains(
            instance_id(instance),
        ) && instance_component(instance) == linked_component(*linked),
{
    linked.instantiate(store)
}

/// `Instance::get_export`, which panics where the store does not own the
/// instance. Claims that the result is a function of the instance, the
/// parent and the name alone, and that the store is left as it was.
#[verifier::external_body]
pub(crate) fn find_export(
    instance: &wasmtime::component::Instance,
    store: &mut wasmtime::Store<()>,
    parent: Option<wasmtime::component::ComponentExportIndex>,
    name: &str,
) -> (found: Option<wasmtime::component::ComponentExportIndex>)
    requires
        store_instances(*old(store)).contains(instance_id(*instance)),
    ensures
        found == export_lookup(instance_component(*instance), parent, name@),
        *final(store) == *old(store),
{
    instance.get_export(store, parent.as_ref(), name)
}

/// `Instance::get_func`, which panics where the store does not own the
/// instance. Claims that whether a function is found is a function of the
/// instance's component and the index alone, and so are the kinds of the
/// types that it declares; that a handle that comes back is new to the
/// store and holds no result; and that nothing else in the store's sets
/// changes.
#[verifier::external_body]
pub(crate) fn find_function(
    instance: &wasmtime::component::Instance,
    store: &mut wasmtime::Store<()>,
    index: &wasmtime::component::ComponentExportIndex,
) -> (found: Option<wasmtime::component::Func>)
    requires
        store_instances(*old(store)).contains(instance_id(*instance)),
    ensures
        store_instances(*final(store)) == store_instances(*old(store)),
        store_pending(*final(store)) == store_pending(*old(store)),
        match found {
            Some(function) => {
                &&& export_function_types(instance_component(*instance), *index) matches Some(
                    types,
                ) && kinds_of_declared(types.0) == kinds_of_declared(param_types(function))
                    && kinds_of_declared(types.1) == kinds_of_declared(result_types(function))
                &&& !store_functions(*old(store)).contains(function_id(function))
                &&& !store_pending(*final(store)).contains(function_id(function))
                &&& store_functions(*final(store)) == store_functions(*old(store)).insert(
                    function_id(function),
                )
            },
            None => {
                &&& export_function_types(instance_component(*instance), *index) is None
                &&& store_functions(*final(store)) == store_functions(*old(store))
            },
        },
{
    instance.get_func(store, index)
}

/// `Func::params`, which panics where the store does not own the function:
/// the declared parameter types, without their names. Claims that they are
/// a function of the function handle alone.
#[verifier::external_body]
pub(crate) fn declared_params(
    function: &wasmtime::component::Func,
    store: &wasmtime::Store<()>,
) -> (types: Vec<wasmtime::component::Type>)
    requires
        store_functions(*store).contains(function_id(*function)),
    ensures
        types@ == param_types(*function),
{
    function.params(store).into_vec().into_iter().map(|named| named.1).collect()
}

/// `Func::results`, which panics where the store does not own the function:
/// the declared result types. Claims that they are a function of the
/// function handle alone.
#[verifier::external_body]
pub(crate) fn declared_results(
    function: &wasmtime::component::Func,
    store: &wasmtime::Store<()>,
) -> (types: Vec<wasmtime::component::Type>)
    requires
        store_functions(*store).contains(function_id(*function)),
    ensures
        types@ == result_types(*function),
{
    function.results(store).into_vec()
}

/// `Func::call`, which panics where the store does not own the function.
/// `results` is the number of result slots handed to it. Claims that the
/// function holds a result afterwards exactly when the call returned `Ok`
/// or it held one before, that as many values come back as slots were
/// given, that they are among the answers that `call_answers` names for
/// this call, and that nothing else in the store's sets changes.
#[verifier::external_body]
pub(crate) fn invoke(
    function: &wasmtime::component::Func,
    store: &mut wasmtime::Store<()>,
    args: &Vec<wasmtime::component::Val>,
    results: usize,
) -> (returned: Result<Vec<wasmtime::component::Val>, anyhow::Error>)
    requires
        store_functions(*old(store)).contains(function_id(*function)),
    ensures
        store_instances(*final(store)) == store_instances(*old(store)),
        store_functions(*final(store)) == store_functions(*old(store)),
        match returned {
            Ok(values) => {
                &&& values@.len() == results
                &&& call_answers(*old(store), *function, args@).contains(values@)
                &&& store_pending(*final(store)) == store_pending(*old(store)).insert(
                    function_id(*function),
                )
            },
            Err(_) => store_pending(*final(store)) == store_pending(*old(store)),
        },
{
    let mut values = vec![wasmtime::component::Val::Bool(false); results];
    function.call(store, args.as_slice(), values.as_mut_slice())?;
    Ok(values)
}

/// `Func::post_return`, which panics unless the function's last call
/// returned and was not followed by a post-return yet. Claims that the
/// function holds no result afterwards, whatever the outcome, and that
/// nothing else in the store's sets changes.
#[verifier::external_body]
pub(crate) fn release(
    function: &wasmtime::component::Func,
    store: &mut wasmtime::Store<()>,
) -> (released: Result<(), anyhow::Error>)
    requires
        store_functions(*old(store)).contains(function_id(*function)),
        store_pending(*old(store)).contains(function_id(*function)),
    ensures
        store_instances(*final(store)) == store_instances(*old(store)),
        store_functions(*final(store)) == store_functions(*old(store)),
        store_pending(*final(store)) == store_pending(*old(store)).remove(function_id(*function)),
{
    function.post_return(store)
}

/// The error's message with its chain of causes, as `anyhow` formats it
/// under `{:#}`. Claims that the text is a function of the error alone.
#[verifier::external_body]
pub(crate) fn describe(error: &anyhow::Error) -> (text: String)
    ensures
        text@ == error_text(*error),
{
    format!("{:#}", error)
}

} // verus!
