//! The host side: loading a component, instantiating it, resolving its
//! exports by name and calling them under the call/finalize protocol.

use vstd::prelude::*;
use vstd::string::*;
use core::marker::PhantomData;
use crate::binder::ImportBinder;
use crate::convert::{from_vals, kinds_of_declared, kinds_of_types, stand_for, to_vals, value_of};
use crate::error::{BindError, CallError, InstantiateError, LoadError, ResolveError};
use crate::list::ValueList;
use crate::protocol::CallState;
use crate::value::{kinds_of, views, Signature, Value, ValueKind, ValueView};
use crate::wasm::{
    accepts, call_answers, compile, component_imports, component_source, declared_params,
    declared_results, describe, engine_memory, error_text, export_function_types, export_lookup,
    find_export, find_function, function_id, instance_component, instance_id, invoke, link,
    link_refusal, links, new_engine, new_store, param_types, release, result_types,
    start_instance, store_functions, store_instances, store_pending,
};

verus! {

/// The process-wide services that every loaded component shares.
pub struct RuntimeContext {
    engine: wasmtime::Engine,
}

impl RuntimeContext {
    /// The memory settings under which the context's runtime works, in
    /// bytes: the address space set aside for each linear memory, the
    /// address space set aside for the growth of one that had to move, and
    /// the size of the guard region behind each. `None` stands for the
    /// runtime's default.
    pub closed spec fn memory(&self) -> (Option<u64>, Option<u64>, Option<u64>) {
        engine_memory(self.engine)
    }

    /// Tells whether the context's runtime accepts `binary` as a component.
    pub closed spec fn accepts(&self, binary: Seq<u8>) -> bool {
        accepts(self.engine, binary)
    }

    /// A context with the default configuration: every memory setting is the
    /// runtime's default.
    pub fn create() -> (context: RuntimeContext)
        ensures
            context.memory() == (None::<u64>, None::<u64>, None::<u64>),
    {
        RuntimeContext { engine: new_engine() }
    }

    /// The engine that the context works with.
    pub closed spec fn engine(&self) -> wasmtime::Engine {
        self.engine
    }

    /// A context that works with an engine that its caller has configured.
    pub fn from_engine(engine: wasmtime::Engine) -> (context: RuntimeContext)
        ensures
            context.engine() == engine,
    {
        RuntimeContext { engine }
    }
}

/// One validated, compiled component. It is never changed after loading.
pub struct ComponentArtifact {
    component: wasmtime::component::Component,
}

impl ComponentArtifact {
    /// The compiled component that the artifact holds.
    pub closed spec fn program(&self) -> wasmtime::component::Component {
        self.component
    }

    /// The binary that the artifact was compiled from.
    pub closed spec fn source(&self) -> Seq<u8> {
        component_source(self.component)
    }

    /// Validates and compiles `binary`. Succeeds exactly when the context's
    /// runtime accepts the bytes, with an artifact that is a compilation of
    /// `binary`; fails with `Malformed` otherwise.
    pub fn load(context: &RuntimeContext, binary: &Vec<u8>) -> (loaded: Result<
        ComponentArtifact,
        LoadError,
    >)
        ensures
            loaded is Ok <==> context.accepts(binary@),
            match loaded {
                Ok(artifact) => artifact.source() == binary@,
                Err(e) => e == LoadError::Malformed,
            },
    {
        Self::from_compilation(compile(&context.engine, binary))
    }

    /// Loads what a caller has read from the component's source: `None`
    /// stands for a source that could not be read, and is `Io`; bytes that
    /// were read are loaded as `load` does.
    pub fn load_read(context: &RuntimeContext, read: Option<Vec<u8>>) -> (loaded: Result<
        ComponentArtifact,
        LoadError,
    >)
        ensures
            match read {
                None => loaded == Err::<ComponentArtifact, LoadError>(LoadError::Io),
                Some(binary) => {
                    &&& loaded is Ok <==> context.accepts(binary@)
                    &&& match loaded {
                        Ok(artifact) => artifact.source() == binary@,
                        Err(e) => e == LoadError::Malformed,
                    }
                },
            },
    {
        match read {
            None => Err(LoadError::Io),
            Some(binary) => Self::load(context, &binary),
        }
    }

    /// What the artifact exports under `name` at the level of `parent`: the
    /// top level where `parent` is `None`.
    pub closed spec fn lookup(
        &self,
        parent: Option<wasmtime::component::ComponentExportIndex>,
        name: Seq<char>,
    ) -> Option<wasmtime::component::ComponentExportIndex> {
        export_lookup(self.component, parent, name)
    }

    /// What the function declares that the artifact exports at `item`;
    /// `None` where `item` is no function of the artifact.
    pub closed spec fn declared(&self, item: wasmtime::component::ComponentExportIndex) -> Option<
        (Seq<ValueKind>, Seq<ValueKind>),
    > {
        match export_function_types(self.component, item) {
            Some(types) => Some((kinds_of_declared(types.0), kinds_of_declared(types.1))),
            None => None,
        }
    }

    /// The names of the imports that the artifact declares at its top level.
    pub closed spec fn imports(&self) -> Set<Seq<char>> {
        component_imports(self.component)
    }

    /// Tells whether the runtime matches the artifact's imports against a
    /// linker that defines `defines`.
    pub closed spec fn matched_by(&self, defines: Map<Seq<char>, Option<Set<Seq<char>>>>) -> bool {
        links(defines, self.component)
    }

    /// The runtime's description of why it does not match the artifact's
    /// imports against a linker that defines `defines`.
    pub closed spec fn refusal(&self, defines: Map<Seq<char>, Option<Set<Seq<char>>>>) -> Seq<
        char,
    > {
        link_refusal(defines, self.component)
    }

    /// Turns the runtime's answer to a compilation into the artifact or the
    /// error: the artifact holds the compiled component, and every refusal
    /// is `Malformed`.
    pub fn from_compilation(
        compiled: Result<wasmtime::component::Component, anyhow::Error>,
    ) -> (loaded: Result<ComponentArtifact, LoadError>)
        ensures
            match compiled {
                Ok(component) => loaded matches Ok(artifact) && artifact.program() == component,
                Err(_) => loaded == Err::<ComponentArtifact, LoadError>(LoadError::Malformed),
            },
    {
        match compiled {
            Ok(component) => Ok(ComponentArtifact { component }),
            Err(_) => Err(LoadError::Malformed),
        }
    }
}

/// What a function declares: the kinds of its parameters and of its
/// results, as this layer knows them.
pub open spec fn declaration(function: wasmtime::component::Func) -> (
    Seq<ValueKind>,
    Seq<ValueKind>,
) {
    (kinds_of_declared(param_types(function)), kinds_of_declared(result_types(function)))
}

/// The mutable state of one instantiation: the runtime's store, and for
/// each binding made in it the function it calls, its signature and where
/// it stands in the call protocol.
pub struct ExecutionContext {
    store: wasmtime::Store<()>,
    functions: Vec<wasmtime::component::Func>,
    signatures: Vec<Signature>,
    states: Vec<CallState>,
}

impl ExecutionContext {
    /// The context's invariant: one function, one signature and one state
    /// per binding; every function lives in the store, no two bindings share
    /// one, and a binding awaits its finalization exactly when the store
    /// holds the result of its function; and every binding has the signature
    /// that its function declares.
    pub closed spec fn wf(&self) -> bool {
        &&& self.functions@.len() == self.signatures@.len()
        &&& self.functions@.len() == self.states@.len()
        &&& forall|i: int|
            0 <= i < self.functions@.len() ==> store_functions(self.store).contains(
                function_id(#[trigger] self.functions@[i]),
            )
        &&& forall|i: int|
            0 <= i < self.functions@.len() ==> (store_pending(self.store).contains(
                function_id(#[trigger] self.functions@[i]),
            ) <==> self.states@[i] == CallState::AwaitingFinalize)
        &&& forall|i: int, j: int|
            0 <= i < j < self.functions@.len() ==> function_id(#[trigger] self.functions@[i])
                != function_id(#[trigger] self.functions@[j])
        &&& forall|i: int|
            0 <= i < self.functions@.len() ==> (#[trigger] self.signatures@[i])@
                == declaration(self.functions@[i])
    }

    /// What the function of each binding declares, in the order in which the
    /// bindings were made.
    pub closed spec fn declarations(&self) -> Seq<(Seq<ValueKind>, Seq<ValueKind>)> {
        self.functions@.map_values(|f: wasmtime::component::Func| declaration(f))
    }

    /// Every binding has the signature that its function declares.
    pub proof fn lemma_bound_as_declared(&self)
        requires
            self.wf(),
        ensures
            self.signatures() == self.declarations(),
    {
        assert(self.signatures() =~= self.declarations());
    }

    /// The signatures of the bindings made in this context, in the order
    /// in which they were made.
    pub closed spec fn signatures(&self) -> Seq<(Seq<ValueKind>, Seq<ValueKind>)> {
        self.signatures@.map_values(|s: Signature| s@)
    }

    /// Where each binding stands in the call protocol.
    pub closed spec fn states(&self) -> Seq<CallState> {
        self.states@
    }

    /// Tells whether the function of the binding at `slot`, called in the
    /// state in which this context is with arguments that stand for `args`,
    /// can hand back values that stand for `results`. What the component
    /// computes is its own affair; this relates what a call returns to what
    /// the call was given.
    pub closed spec fn can_return(
        &self,
        slot: nat,
        args: Seq<ValueView>,
        results: Seq<ValueView>,
    ) -> bool {
        &&& slot < self.functions@.len()
        &&& exists|vals: Seq<wasmtime::component::Val>, outs: Seq<wasmtime::component::Val>|
            {
                &&& stand_for(vals, args)
                &&& stand_for(outs, results)
                &&& #[trigger] call_answers(self.store, self.functions@[slot as int], vals).contains(
                    outs,
                )
            }
    }

    /// The identifiers of the instances that live in this context.
    pub closed spec fn residents(&self) -> Set<int> {
        store_instances(self.store)
    }

    /// Tells whether `instance` lives in this context.
    pub open spec fn hosts(&self, instance: &ComponentInstance) -> bool {
        self.residents().contains(instance.id())
    }

    /// A context keeps one state per signature.
    pub proof fn lemma_one_state_per_binding(&self)
        requires
            self.wf(),
        ensures
            self.states().len() == self.signatures().len(),
    {
    }
}

/// A live component. Its exports are fixed for its lifetime.
pub struct ComponentInstance {
    handle: wasmtime::component::Instance,
}

impl ComponentInstance {
    /// The compiled component that this is an instance of.
    pub closed spec fn program(&self) -> wasmtime::component::Component {
        instance_component(self.handle)
    }

    /// The identifier under which the instance's context knows it.
    pub closed spec fn id(&self) -> int {
        instance_id(self.handle)
    }

    /// What the instance exports under `name` at the level of `parent`: the
    /// top level where `parent` is `None`, the items of an interface where
    /// it is what that interface's handle refers to.
    pub closed spec fn lookup(
        &self,
        parent: Option<wasmtime::component::ComponentExportIndex>,
        name: Seq<char>,
    ) -> Option<wasmtime::component::ComponentExportIndex> {
        export_lookup(self.program(), parent, name)
    }

    /// What the function declares that the instance exports at `item`: the
    /// kinds of its parameters and of its results, as this layer knows them.
    /// `None` where `item` is no function of the instance.
    pub closed spec fn declared(&self, item: wasmtime::component::ComponentExportIndex) -> Option<
        (Seq<ValueKind>, Seq<ValueKind>),
    > {
        match export_function_types(self.program(), item) {
            Some(types) => Some((kinds_of_declared(types.0), kinds_of_declared(types.1))),
            None => None,
        }
    }

    /// Tells whether the instance exports an item `name` at the level of
    /// `parent`.
    pub open spec fn has_export(&self, parent: Option<ExportHandle>, name: Seq<char>) -> bool {
        self.lookup(target_of(parent), name) is Some
    }
}

/// The names of a path, each as a sequence of characters.
pub open spec fn path_view(path: Seq<String>) -> Seq<Seq<char>> {
    path.map_values(|s: String| s@)
}

/// A resolved reference to one exported item: a function, or an interface
/// that groups further items.
pub struct ExportHandle {
    index: wasmtime::component::ComponentExportIndex,
    path: Vec<String>,
}

impl View for ExportHandle {
    type V = Seq<Seq<char>>;

    /// The names that lead to the item, from the top level down.
    closed spec fn view(&self) -> Seq<Seq<char>> {
        path_view(self.path@)
    }
}

/// The path that leads to `parent`: empty at the top level.
pub open spec fn path_to(parent: Option<ExportHandle>) -> Seq<Seq<char>> {
    match parent {
        Some(p) => p@,
        None => Seq::empty(),
    }
}

/// What `parent` refers to: nothing at the top level.
pub open spec fn target_of(parent: Option<ExportHandle>) -> Option<
    wasmtime::component::ComponentExportIndex,
> {
    match parent {
        Some(p) => Some(p.target()),
        None => None,
    }
}

/// A reference turned into the value it refers to.
pub open spec fn owned(parent: Option<&ExportHandle>) -> Option<ExportHandle> {
    match parent {
        Some(p) => Some(*p),
        None => None,
    }
}

impl ExportHandle {
    /// The item that the handle refers to.
    pub closed spec fn target(&self) -> wasmtime::component::ComponentExportIndex {
        self.index
    }

    /// Tells whether the handle is what resolving `name` under `parent` in
    /// `instance` gives.
    pub open spec fn resolves(
        &self,
        instance: &ComponentInstance,
        parent: Option<ExportHandle>,
        name: Seq<char>,
    ) -> bool {
        &&& instance.lookup(target_of(parent), name) == Some(self.target())
        &&& self@ == path_to(parent).push(name)
    }

    /// Two handles are equivalent when they refer to the same item by the
    /// same path.
    pub open spec fn equivalent(&self, other: &ExportHandle) -> bool {
        self.target() == other.target() && self@ == other@
    }

    /// The names that lead to the item, from the top level down.
    pub fn path(&self) -> (names: Vec<String>)
        ensures
            path_view(names@) == self@,
    {
        copy_path(&self.path)
    }
}

/// A copy of `path`, name by name.
fn copy_path(path: &Vec<String>) -> (copy: Vec<String>)
    ensures
        path_view(copy@) == path_view(path@),
{
    let mut copy: Vec<String> = Vec::new();
    let mut i: usize = 0;
    while i < path.len()
        invariant
            i <= path.len(),
            copy@.len() == i,
            forall|j: int| 0 <= j < i ==> copy@[j]@ == path@[j]@,
        decreases path.len() - i,
    {
        copy.push(path[i].clone());
        i += 1;
    }
    proof {
        assert(path_view(copy@) =~= path_view(path@));
    }
    copy
}

/// Turns the runtime's answer to a lookup into the handle or the error:
/// the handle refers to what was found, by the parent's path and then
/// `name`; nothing found is `NotFound`.
pub fn resolution(
    found: Option<wasmtime::component::ComponentExportIndex>,
    parent: Option<&ExportHandle>,
    name: &str,
) -> (resolved: Result<ExportHandle, ResolveError>)
    ensures
        match found {
            Some(index) => resolved matches Ok(handle) && handle.target() == index && handle@
                == path_to(owned(parent)).push(name@),
            None => resolved == Err::<ExportHandle, ResolveError>(ResolveError::NotFound),
        },
{
    match found {
        Some(index) => {
            let mut path: Vec<String> = match parent {
                Some(p) => copy_path(&p.path),
                None => Vec::new(),
            };
            let ghost before = path@;
            path.push(String::from_str(name));
            proof {
                assert(path_view(before) =~= path_to(owned(parent)));
                assert(path_view(path@) =~= path_view(before).push(name@));
            }
            Ok(ExportHandle { index, path })
        },
        None => Err(ResolveError::NotFound),
    }
}

/// Resolves `name` relative to `parent`: among the instance's top-level
/// exports where `parent` is `None`, among the items of the interface that
/// `parent` refers to otherwise. Succeeds exactly when the instance exports
/// such an item, with a handle that refers to it; fails with `NotFound`
/// otherwise. The context is left as it was.
pub fn resolve(
    instance: &ComponentInstance,
    context: &mut ExecutionContext,
    parent: Option<&ExportHandle>,
    name: &str,
) -> (resolved: Result<ExportHandle, ResolveError>)
    requires
        old(context).hosts(instance),
    ensures
        *final(context) == *old(context),
        match resolved {
            Ok(handle) => handle.resolves(instance, owned(parent), name@),
            Err(e) => e == ResolveError::NotFound && !instance.has_export(owned(parent), name@),
        },
{
    let above = match parent {
        Some(p) => Some(p.index),
        None => None,
    };
    let found = find_export(&instance.handle, &mut context.store, above, name);
    resolution(found, parent, name)
}

/// Resolving the same name under the same parent twice gives equivalent
/// handles.
pub proof fn law_resolve_idempotent(
    instance: &ComponentInstance,
    parent: Option<ExportHandle>,
    name: Seq<char>,
    first: &ExportHandle,
    second: &ExportHandle,
)
    requires
        first.resolves(instance, parent, name),
        second.resolves(instance, parent, name),
    ensures
        first.equivalent(second),
{
}

/// Equivalent handles refer to a function of the same declaration, so that
/// each can be bound under exactly the signatures under which the other can.
pub proof fn law_equivalent_handles_bind_alike(
    instance: &ComponentInstance,
    first: &ExportHandle,
    second: &ExportHandle,
)
    requires
        first.equivalent(second),
    ensures
        instance.declared(first.target()) == instance.declared(second.target()),
{
}

/// An instance exports what its artifact exports: under every name the same
/// item, and at every item a function of the same declaration. Two
/// instances of one artifact therefore export alike.
pub proof fn law_instance_exports_as_artifact(
    instance: &ComponentInstance,
    artifact: &ComponentArtifact,
    parent: Option<wasmtime::component::ComponentExportIndex>,
    name: Seq<char>,
    item: wasmtime::component::ComponentExportIndex,
)
    requires
        instance.program() == artifact.program(),
    ensures
        instance.lookup(parent, name) == artifact.lookup(parent, name),
        instance.declared(item) == artifact.declared(item),
{
}

/// A handle that resolving gives leads one name further than its parent,
/// and that name is the one that was asked for.
pub proof fn law_resolve_is_relative(
    instance: &ComponentInstance,
    parent: Option<ExportHandle>,
    name: Seq<char>,
    handle: &ExportHandle,
)
    requires
        handle.resolves(instance, parent, name),
    ensures
        instance.has_export(parent, name),
        handle@.len() == path_to(parent).len() + 1,
        handle@.last() == name,
        handle@.drop_last() == path_to(parent),
{
    assert(handle@.drop_last() =~= path_to(parent));
}

/// Turns the runtime's answer to the start of an instance in `store` into
/// the instance with its execution context, or the error: the context
/// holds the store and no binding, and every failure is `Trap`.
pub fn started(
    store: wasmtime::Store<()>,
    outcome: Result<wasmtime::component::Instance, anyhow::Error>,
) -> (made: Result<(ComponentInstance, ExecutionContext), InstantiateError>)
    requires
        outcome matches Ok(handle) ==> store_instances(store).contains(instance_id(handle)),
    ensures
        match outcome {
            Ok(handle) => made matches Ok(pair) && {
                &&& pair.0.id() == instance_id(handle)
                &&& pair.0.program() == instance_component(handle)
                &&& pair.1.wf()
                &&& pair.1.hosts(&pair.0)
                &&& pair.1.signatures() == Seq::<(Seq<ValueKind>, Seq<ValueKind>)>::empty()
                &&& pair.1.states() == Seq::<CallState>::empty()
            },
            Err(_) => made == Err::<(ComponentInstance, ExecutionContext), InstantiateError>(
                InstantiateError::Trap,
            ),
        },
{
    match outcome {
        Err(_) => Err(InstantiateError::Trap),
        Ok(handle) => {
            let execution = ExecutionContext {
                store,
                functions: Vec::new(),
                signatures: Vec::new(),
                states: Vec::new(),
            };
            proof {
                assert(execution.signatures() =~= Seq::<(Seq<ValueKind>, Seq<ValueKind>)>::empty());
            }
            Ok((ComponentInstance { handle }, execution))
        },
    }
}

/// The error for an artifact whose imports the runtime could not match
/// against the binder: `MissingImport`, with the runtime's description of
/// what it missed.
pub fn missing(refusal: &anyhow::Error) -> (error: InstantiateError)
    ensures
        error matches InstantiateError::MissingImport(text) && text@ == error_text(*refusal),
{
    InstantiateError::MissingImport(describe(refusal))
}

/// Instantiates `artifact` with the capabilities of `binder`, in a fresh
/// execution context. Where the binder does not satisfy the artifact's
/// imports the error is `MissingImport`, with the runtime's description,
/// which names the import. Where it does and the component's initialization
/// fails, the error is `Trap`; whether it fails is for the component and
/// the machine to decide. An artifact that imports nothing is satisfied by
/// every binder, the empty one too. On success the instance is an instance of
/// `artifact`, it lives in the context that comes with it, and the context
/// holds no binding yet.
pub fn instantiate<F: Fn(Vec<Value>) -> Vec<Value> + Send + Sync + 'static>(
    context: &RuntimeContext,
    artifact: &ComponentArtifact,
    binder: ImportBinder<F>,
) -> (made: Result<(ComponentInstance, ExecutionContext), InstantiateError>)
    requires
        binder.wf(),
    ensures
        match made {
            Ok(pair) => {
                &&& binder.satisfies(artifact)
                &&& pair.0.program() == artifact.program()
                &&& pair.1.wf()
                &&& pair.1.hosts(&pair.0)
                &&& pair.1.signatures() == Seq::<(Seq<ValueKind>, Seq<ValueKind>)>::empty()
                &&& pair.1.states() == Seq::<CallState>::empty()
            },
            Err(InstantiateError::MissingImport(text)) => {
                &&& !binder.satisfies(artifact)
                &&& text@ == artifact.refusal(binder.defines())
            },
            Err(InstantiateError::Trap) => binder.satisfies(artifact),
        },
        artifact.imports() == Set::<Seq<char>>::empty() ==> binder.satisfies(artifact),
{
    let linker = binder.into_linker(&context.engine);
    match link(&linker, &artifact.component) {
        Err(refusal) => Err(missing(&refusal)),
        Ok(linked) => {
            let mut store = new_store(&context.engine);
            let outcome = start_instance(&linked, &mut store);
            started(store, outcome)
        },
    }
}

/// Decides whether a function may be bound under `wanted`: only where the
/// export is a function (`declared` is `Some`) and its declared parameters
/// and results are those wanted, in number and in kind.
pub fn check_signature(declared: Option<&Signature>, wanted: &Signature) -> (verdict: Result<
    (),
    BindError,
>)
    ensures
        verdict is Ok <==> (declared matches Some(d) && d@ == wanted@),
        verdict matches Err(e) ==> e == BindError::SignatureMismatch,
{
    match declared {
        Some(d) => {
            if d.agrees_with(wanted) {
                Ok(())
            } else {
                Err(BindError::SignatureMismatch)
            }
        },
        None => Err(BindError::SignatureMismatch),
    }
}

/// The runtime's values for the arguments of a call: they stand, one for
/// one, for the values as which the arguments cross.
pub fn arguments<P: ValueList>(args: P) -> (vals: Vec<wasmtime::component::Val>)
    ensures
        stand_for(vals@, args.models()),
{
    to_vals(&args.lower())
}

/// The results of a call, from the runtime's values for them: `Some`
/// exactly where this layer marshals every value and they are of the kinds
/// of `R`, one for one; the results are then those that the values stand
/// for.
pub fn results<R: ValueList>(outs: &Vec<wasmtime::component::Val>) -> (lifted: Option<R>)
    ensures
        match lifted {
            Some(r) => stand_for(outs@, r.models()),
            None => forall|values: Seq<ValueView>|
                stand_for(outs@, values) ==> kinds_of(values) != R::kinds(),
        },
{
    match from_vals(outs.as_slice()) {
        Some(values) => {
            let lifted = R::lift(values);
            proof {
                if lifted is None {
                    assert forall|other: Seq<ValueView>| stand_for(outs@, other) implies kinds_of(
                        other,
                    ) != R::kinds() by {
                        assert forall|i: int| 0 <= i < other.len() implies other[i] == views(
                            values@,
                        )[i] by {
                            assert(value_of(outs@[i]) == Some(other[i]));
                            assert(value_of(outs@[i]) == Some(views(values@)[i]));
                        }
                        assert(other =~= views(values@));
                    }
                }
            }
            lifted
        },
        None => {
            proof {
                let i = choose|i: int| 0 <= i < outs@.len() && value_of(outs@[i]) is None;
                assert(value_of(outs@[i]) is None);
            }
            None
        },
    }
}

/// A function of an instance, bound under the parameter list `P` and the
/// result list `R`. The binding's signature was compared with the declared one when it was made;
/// its place in the call protocol is kept by its execution context.
pub struct TypedInvocationBinding<P, R> {
    slot: usize,
    shape: PhantomData<(P, R)>,
}

/// Binds the function that `handle` refers to under `P` and `R`. Succeeds
/// exactly when the handle refers to a function of the instance that
/// declares the parameters and results of `P` and `R`, in number and in
/// kind; the context then has one binding more, which is `Ready`. Fails
/// with `SignatureMismatch` otherwise, and the context's bindings are as
/// they were.
pub fn bind<P: ValueList, R: ValueList>(
    instance: &ComponentInstance,
    context: &mut ExecutionContext,
    handle: &ExportHandle,
) -> (bound: Result<TypedInvocationBinding<P, R>, BindError>)
    requires
        old(context).wf(),
        old(context).hosts(instance),
    ensures
        final(context).wf(),
        final(context).residents() == old(context).residents(),
        bound is Ok <==> instance.declared(handle.target()) == Some((P::kinds(), R::kinds())),
        match bound {
            Ok(binding) => {
                &&& binding.slot() == old(context).signatures().len()
                &&& binding.bound_in(final(context))
                &&& final(context).signatures() == old(context).signatures().push(
                    (P::kinds(), R::kinds()),
                )
                &&& final(context).states() == old(context).states().push(CallState::Ready)
            },
            Err(e) => {
                &&& e == BindError::SignatureMismatch
                &&& final(context).signatures() == old(context).signatures()
                &&& final(context).states() == old(context).states()
            },
        },
{
    let wanted = Signature { params: P::kind_list(), results: R::kind_list() };
    match find_function(&instance.handle, &mut context.store, &handle.index) {
        None => Err(BindError::SignatureMismatch),
        Some(function) => {
            let declared = Signature {
                params: kinds_of_types(&declared_params(&function, &context.store)),
                results: kinds_of_types(&declared_results(&function, &context.store)),
            };
            match check_signature(Some(&declared), &wanted) {
                Err(e) => Err(e),
                Ok(()) => {
                    let slot = context.functions.len();
                    context.functions.push(function);
                    context.signatures.push(wanted);
                    context.states.push(CallState::initial());
                    proof {
                        assert(final(context).signatures() =~= old(context).signatures().push(
                            (P::kinds(), R::kinds()),
                        ));
                    }
                    Ok(TypedInvocationBinding { slot, shape: PhantomData })
                },
            }
        },
    }
}

impl<P: ValueList, R: ValueList> TypedInvocationBinding<P, R> {
    /// The binding's place among the bindings of its execution context.
    pub closed spec fn slot(&self) -> nat {
        self.slot as nat
    }

    /// Tells whether `context` keeps a binding of this signature in this
    /// binding's place, as the context does in which the binding was made.
    pub open spec fn bound_in(&self, context: &ExecutionContext) -> bool {
        &&& self.slot() < context.signatures().len()
        &&& context.signatures()[self.slot() as int] == (P::kinds(), R::kinds())
    }

    /// Where the binding stands in the call protocol.
    pub fn state(&self, context: &ExecutionContext) -> (state: CallState)
        requires
            context.wf(),
            self.bound_in(context),
        ensures
            state == context.states()[self.slot() as int],
    {
        context.states[self.slot]
    }

    /// Calls the function with `args`. While the binding awaits its
    /// finalization the call is refused with `FinalizeRequired` and nothing
    /// changes. Otherwise the arguments are handed to the component; where
    /// it returns results of the bound kinds, they come back and the binding
    /// awaits its finalization; where it faults, the error is `Trap` and the
    /// binding stays `Ready`. Results that come back are what the component
    /// handed back for these arguments, in the state in which the context
    /// was.
    pub fn call(&self, context: &mut ExecutionContext, args: P) -> (returned: Result<R, CallError>)
        requires
            old(context).wf(),
            self.bound_in(old(context)),
        ensures
            final(context).wf(),
            final(context).residents() == old(context).residents(),
            final(context).signatures() == old(context).signatures(),
            final(context).states() == old(context).states().update(
                self.slot() as int,
                old(context).states()[self.slot() as int].after_call(returned is Ok),
            ),
            match old(context).states()[self.slot() as int].call_refusal() {
                Some(e) => returned == Err::<R, CallError>(e),
                None => returned matches Err(e) ==> e == CallError::Trap,
            },
            returned matches Ok(r) ==> old(context).can_return(
                self.slot(),
                args.models(),
                r.models(),
            ),
    {
        let slot = self.slot;
        match context.states[slot].admit_call() {
            Err(e) => {
                proof {
                    assert(final(context).states() =~= old(context).states());
                }
                return Err(e);
            },
            Ok(()) => {},
        }
        let vals = arguments(args);
        let ghost handed = vals@;
        let wanted = context.signatures[slot].results.len();
        match invoke(&context.functions[slot], &mut context.store, &vals, wanted) {
            Err(_) => {
                proof {
                    assert(final(context).states() =~= old(context).states());
                }
                Err(CallError::Trap)
            },
            Ok(outs) => {
                match results::<R>(&outs) {
                    Some(results) => {
                        context.states.set(slot, CallState::AwaitingFinalize);
                        proof {
                            assert(call_answers(
                                old(context).store,
                                old(context).functions@[slot as int],
                                handed,
                            ).contains(outs@));
                        }
                        Ok(results)
                    },
                    None => {
                        let _ = release(&context.functions[slot], &mut context.store);
                        proof {
                            assert(store_pending(context.store) =~= store_pending(
                                old(context).store,
                            ));
                            assert(final(context).states() =~= old(context).states());
                        }
                        Err(CallError::Trap)
                    },
                }
            },
        }
    }

    /// Releases the results of the binding's last call. While no call is
    /// outstanding the finalization is refused with `NothingToFinalize`.
    /// Otherwise the component is told to release the results, and the
    /// binding is `Ready` again; where the component's cleanup faults, the
    /// error is `Trap`.
    pub fn finalize(&self, context: &mut ExecutionContext) -> (released: Result<(), CallError>)
        requires
            old(context).wf(),
            self.bound_in(old(context)),
        ensures
            final(context).wf(),
            final(context).residents() == old(context).residents(),
            final(context).signatures() == old(context).signatures(),
            final(context).states() == old(context).states().update(
                self.slot() as int,
                old(context).states()[self.slot() as int].after_finalize(),
            ),
            match old(context).states()[self.slot() as int].finalize_refusal() {
                Some(e) => released == Err::<(), CallError>(e),
                None => released matches Err(e) ==> e == CallError::Trap,
            },
    {
        let slot = self.slot;
        match context.states[slot].admit_finalize() {
            Err(e) => {
                proof {
                    assert(final(context).states() =~= old(context).states());
                }
                return Err(e);
            },
            Ok(()) => {},
        }
        let outcome = release(&context.functions[slot], &mut context.store);
        context.states.set(slot, CallState::Ready);
        match outcome {
            Ok(()) => Ok(()),
            Err(_) => Err(CallError::Trap),
        }
    }
}

/// A binding calls a function that declares the binding's own signature:
/// what was compared when the binding was made holds for as long as the
/// context is valid.
pub proof fn law_bound_as_declared<P: ValueList, R: ValueList>(
    binding: &TypedInvocationBinding<P, R>,
    context: &ExecutionContext,
)
    requires
        context.wf(),
        binding.bound_in(context),
    ensures
        context.declarations()[binding.slot() as int] == (P::kinds(), R::kinds()),
{
    context.lemma_bound_as_declared();
}

} // verus!
