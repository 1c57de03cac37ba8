use component_host::error::{
    BindError, CallError, ConnectError, GreetError, InstantiateError, LoadError, ResolveError,
};
use component_host::greetable::{greet_by_hand, interface_name, GreetableProvider};
use component_host::binder::ImportBinder;
use component_host::host::{
    arguments, bind, instantiate, missing, resolve, results, started, ComponentArtifact,
    ComponentInstance, ExecutionContext, ExportHandle, RuntimeContext, TypedInvocationBinding,
};
use component_host::value::Value;
use component_host::protocol::CallState;

const GREETER: &str = r#"
(component
  (core module $greeter
    (memory (export "memory") 1)
    (global $top (mut i32) (i32.const 256))
    (global $released (mut i32) (i32.const 0))
    (data (i32.const 0) "Hello, ")
    (data (i32.const 16) "X")
    (func $alloc (param $size i32) (result i32)
      (local $at i32)
      (local.set $at (global.get $top))
      (global.set $top
        (i32.and
          (i32.add (i32.add (global.get $top) (local.get $size)) (i32.const 7))
          (i32.const -8)))
      (local.get $at))
    (func (export "realloc") (param i32 i32 i32 i32) (result i32)
      (call $alloc (local.get 3)))
    (func (export "name") (result i32)
      (local $ret i32)
      (local.set $ret (call $alloc (i32.const 8)))
      (i32.store (local.get $ret) (i32.const 16))
      (i32.store offset=4 (local.get $ret) (i32.const 1))
      (local.get $ret))
    (func (export "greet") (param $ptr i32) (param $len i32) (result i32)
      (local $ret i32)
      (local $text i32)
      (local.set $text (call $alloc (i32.add (local.get $len) (i32.const 7))))
      (memory.copy (local.get $text) (i32.const 0) (i32.const 7))
      (memory.copy
        (i32.add (local.get $text) (i32.const 7))
        (local.get $ptr)
        (local.get $len))
      (local.set $ret (call $alloc (i32.const 8)))
      (i32.store (local.get $ret) (local.get $text))
      (i32.store offset=4 (local.get $ret) (i32.add (local.get $len) (i32.const 7)))
      (local.get $ret))
    (func (export "release") (param i32)
      (global.set $top (i32.const 256))
      (global.set $released (i32.add (global.get $released) (i32.const 1))))
    (func (export "released") (result i32)
      (global.get $released))
    (func (export "sum") (param i32 i32) (result i32)
      (i32.add (local.get 0) (local.get 1)))
    (func (export "negate") (param i32) (result i32)
      (i32.eqz (local.get 0)))
    (func (export "fail")
      unreachable)
  )
  (core instance $i (instantiate $greeter))
  (func $name (result string)
    (canon lift (core func $i "name") (memory (core memory $i "memory"))
      (realloc (core func $i "realloc")) (post-return (core func $i "release"))))
  (func $greet (param "name" string) (result string)
    (canon lift (core func $i "greet") (memory (core memory $i "memory"))
      (realloc (core func $i "realloc")) (post-return (core func $i "release"))))
  (func $released (result u32) (canon lift (core func $i "released")))
  (func $sum (param "a" u32) (param "b" u32) (result u32) (canon lift (core func $i "sum")))
  (func $negate (param "b" bool) (result bool) (canon lift (core func $i "negate")))
  (func $fail (canon lift (core func $i "fail")))
  (instance $greetable
    (export "greet" (func $greet))
    (export "name" (func $name)))
  (instance $tools
    (export "released" (func $released))
    (export "sum" (func $sum))
    (export "negate" (func $negate))
    (export "fail" (func $fail)))
  (export "ns:pkg/greetable" (instance $greetable))
  (export "your-namespace:greet/greetable" (instance $greetable))
  (export "ns:pkg/tools" (instance $tools))
)
"#;

const FAILS_TO_EXPORT: &str = r#"
(component)
"#;

const NEEDS_LOG: &str = r#"
(component
  (import "log" (func))
)
"#;

const FAILS_AT_START: &str = r#"
(component
  (core module $m
    (func $boom unreachable)
    (start $boom))
  (core instance (instantiate $m))
)
"#;

fn binary(text: &str) -> Vec<u8> {
    wat::parse_str(text).expect("the component text is valid")
}

fn nothing() -> ImportBinder<fn(Vec<Value>) -> Vec<Value>> {
    ImportBinder::new()
}

fn small() -> RuntimeContext {
    let mut config = wasmtime::Config::new();
    config.memory_reservation(1 << 24);
    config.memory_reservation_for_growth(1 << 20);
    config.memory_guard_size(1 << 16);
    RuntimeContext::from_engine(wasmtime::Engine::new(&config).expect("the configuration is valid"))
}

fn greeter() -> (ComponentInstance, ExecutionContext) {
    let context = small();
    let artifact = ComponentArtifact::load(&context, &binary(GREETER)).expect("loads");
    instantiate(&context, &artifact, nothing()).expect("instantiates")
}

fn item(
    instance: &ComponentInstance,
    execution: &mut ExecutionContext,
    interface: &str,
    name: &str,
) -> ExportHandle {
    let group = resolve(instance, execution, None, interface).expect("the interface exists");
    resolve(instance, execution, Some(&group), name).expect("the item exists")
}

#[test]
fn load_rejects_bytes_that_are_no_component() {
    let context = RuntimeContext::create();
    let garbage: Vec<u8> = vec![1, 2, 3, 4, 5];
    assert_eq!(ComponentArtifact::load(&context, &garbage).err(), Some(LoadError::Malformed));
    let empty: Vec<u8> = Vec::new();
    assert_eq!(ComponentArtifact::load(&context, &empty).err(), Some(LoadError::Malformed));
}

#[test]
fn load_reports_an_unreadable_source() {
    let context = RuntimeContext::create();
    assert_eq!(ComponentArtifact::load_read(&context, None).err(), Some(LoadError::Io));
    assert_eq!(
        ComponentArtifact::load_read(&context, Some(vec![0, 1, 2])).err(),
        Some(LoadError::Malformed)
    );
    assert!(ComponentArtifact::load_read(&context, Some(binary(GREETER))).is_ok());
}

#[test]
fn load_rejects_a_core_module() {
    let context = RuntimeContext::create();
    let module = binary("(module)");
    assert_eq!(ComponentArtifact::load(&context, &module).err(), Some(LoadError::Malformed));
}

#[test]
fn load_accepts_a_component_and_it_can_be_instantiated_twice() {
    let context = small();
    let artifact = ComponentArtifact::load(&context, &binary(GREETER)).expect("loads");
    assert!(instantiate(&context, &artifact, nothing()).is_ok());
    assert!(instantiate(&context, &artifact, nothing()).is_ok());
}

#[test]
fn instantiate_names_the_missing_import() {
    let context = RuntimeContext::create();
    let artifact = ComponentArtifact::load(&context, &binary(NEEDS_LOG)).expect("loads");
    match instantiate(&context, &artifact, nothing()) {
        Err(InstantiateError::MissingImport(text)) => assert!(text.contains("`log`"), "{}", text),
        Err(other) => panic!("expected a missing import, got {:?}", other),
        Ok(_) => panic!("expected a missing import, got an instance"),
    }
}

#[test]
fn instantiate_reports_a_trap_at_start() {
    let context = small();
    let artifact = ComponentArtifact::load(&context, &binary(FAILS_AT_START)).expect("loads");
    match instantiate(&context, &artifact, nothing()) {
        Err(e) => assert_eq!(e, InstantiateError::Trap),
        Ok(_) => panic!("expected a trap"),
    }
}

#[test]
fn resolve_finds_interface_then_item() {
    let (instance, mut execution) = greeter();
    let group = resolve(&instance, &mut execution, None, "ns:pkg/greetable").expect("found");
    assert_eq!(group.path(), vec!["ns:pkg/greetable".to_string()]);
    let greet = resolve(&instance, &mut execution, Some(&group), "greet").expect("found");
    assert_eq!(greet.path(), vec!["ns:pkg/greetable".to_string(), "greet".to_string()]);
    let name = resolve(&instance, &mut execution, Some(&group), "name").expect("found");
    assert_eq!(name.path(), vec!["ns:pkg/greetable".to_string(), "name".to_string()]);
}

#[test]
fn resolve_is_idempotent() {
    let (instance, mut execution) = greeter();
    let first = resolve(&instance, &mut execution, None, "ns:pkg/greetable").expect("found");
    let second = resolve(&instance, &mut execution, None, "ns:pkg/greetable").expect("found");
    assert_eq!(first.path(), second.path());
    let greet_first = resolve(&instance, &mut execution, Some(&first), "greet").expect("found");
    let greet_second = resolve(&instance, &mut execution, Some(&second), "greet").expect("found");
    assert_eq!(greet_first.path(), greet_second.path());
    let one: TypedInvocationBinding<(String,), (String,)> =
        bind(&instance, &mut execution, &greet_first).expect("binds");
    let two: TypedInvocationBinding<(String,), (String,)> =
        bind(&instance, &mut execution, &greet_second).expect("binds");
    assert_eq!(one.call(&mut execution, ("a".to_string(),)), Ok(("Hello, a".to_string(),)));
    assert_eq!(one.finalize(&mut execution), Ok(()));
    assert_eq!(two.call(&mut execution, ("a".to_string(),)), Ok(("Hello, a".to_string(),)));
    assert_eq!(two.finalize(&mut execution), Ok(()));
}

#[test]
fn resolve_reports_a_missing_name_at_each_level() {
    let (instance, mut execution) = greeter();
    assert_eq!(
        resolve(&instance, &mut execution, None, "ns:pkg/absent").err(),
        Some(ResolveError::NotFound)
    );
    assert_eq!(resolve(&instance, &mut execution, None, "").err(), Some(ResolveError::NotFound));
    assert_eq!(
        resolve(&instance, &mut execution, None, "greet").err(),
        Some(ResolveError::NotFound)
    );
    let group = resolve(&instance, &mut execution, None, "ns:pkg/greetable").expect("found");
    assert_eq!(
        resolve(&instance, &mut execution, Some(&group), "absent").err(),
        Some(ResolveError::NotFound)
    );
    assert_eq!(
        resolve(&instance, &mut execution, Some(&group), "ns:pkg/greetable").err(),
        Some(ResolveError::NotFound)
    );
    let greet = resolve(&instance, &mut execution, Some(&group), "greet").expect("found");
    assert_eq!(
        resolve(&instance, &mut execution, Some(&greet), "greet").err(),
        Some(ResolveError::NotFound)
    );
}

#[test]
fn bind_rejects_every_mismatch() {
    let (instance, mut execution) = greeter();
    let greet = item(&instance, &mut execution, "ns:pkg/greetable", "greet");
    let sum = item(&instance, &mut execution, "ns:pkg/tools", "sum");
    let group = resolve(&instance, &mut execution, None, "ns:pkg/greetable").expect("found");

    let no_params: Result<TypedInvocationBinding<(), (String,)>, BindError> =
        bind(&instance, &mut execution, &greet);
    assert_eq!(no_params.err(), Some(BindError::SignatureMismatch));
    let wrong_param: Result<TypedInvocationBinding<(u32,), (String,)>, BindError> =
        bind(&instance, &mut execution, &greet);
    assert_eq!(wrong_param.err(), Some(BindError::SignatureMismatch));
    let wrong_result: Result<TypedInvocationBinding<(String,), (bool,)>, BindError> =
        bind(&instance, &mut execution, &greet);
    assert_eq!(wrong_result.err(), Some(BindError::SignatureMismatch));
    let no_result: Result<TypedInvocationBinding<(String,), ()>, BindError> =
        bind(&instance, &mut execution, &greet);
    assert_eq!(no_result.err(), Some(BindError::SignatureMismatch));
    let too_many: Result<TypedInvocationBinding<(String, String), (String,)>, BindError> =
        bind(&instance, &mut execution, &greet);
    assert_eq!(too_many.err(), Some(BindError::SignatureMismatch));
    let swapped: Result<TypedInvocationBinding<(u32,), (u32, u32)>, BindError> =
        bind(&instance, &mut execution, &sum);
    assert_eq!(swapped.err(), Some(BindError::SignatureMismatch));
    let signed: Result<TypedInvocationBinding<(i32, i32), (i32,)>, BindError> =
        bind(&instance, &mut execution, &sum);
    assert_eq!(signed.err(), Some(BindError::SignatureMismatch));
    let interface: Result<TypedInvocationBinding<(), ()>, BindError> =
        bind(&instance, &mut execution, &group);
    assert_eq!(interface.err(), Some(BindError::SignatureMismatch));

    let right: TypedInvocationBinding<(String,), (String,)> =
        bind(&instance, &mut execution, &greet).expect("binds");
    assert_eq!(right.state(&execution), CallState::Ready);
    assert_eq!(right.call(&mut execution, ("you".to_string(),)), Ok(("Hello, you".to_string(),)));
}

#[test]
fn greeting_scenario() {
    let (instance, mut execution) = greeter();
    let group = resolve(&instance, &mut execution, None, "ns:pkg/greetable").expect("found");
    let greet_handle = resolve(&instance, &mut execution, Some(&group), "greet").expect("found");
    let name_handle = resolve(&instance, &mut execution, Some(&group), "name").expect("found");
    let greet: TypedInvocationBinding<(String,), (String,)> =
        bind(&instance, &mut execution, &greet_handle).expect("binds");
    let name: TypedInvocationBinding<(), (String,)> =
        bind(&instance, &mut execution, &name_handle).expect("binds");

    let (who,) = name.call(&mut execution, ()).expect("returns");
    assert_eq!(who, "X");
    assert_eq!(name.finalize(&mut execution), Ok(()));

    let (text,) = greet.call(&mut execution, ("world!".to_string(),)).expect("returns");
    assert_eq!(text, "Hello, world!");
    assert_eq!(greet.finalize(&mut execution), Ok(()));

    let (text,) = greet.call(&mut execution, (who,)).expect("returns");
    assert_eq!(text, "Hello, X");
    assert_eq!(greet.finalize(&mut execution), Ok(()));
}

#[test]
fn second_call_without_finalize_is_refused() {
    let (instance, mut execution) = greeter();
    let handle = item(&instance, &mut execution, "ns:pkg/greetable", "greet");
    let greet: TypedInvocationBinding<(String,), (String,)> =
        bind(&instance, &mut execution, &handle).expect("binds");
    assert_eq!(greet.state(&execution), CallState::Ready);
    assert_eq!(greet.call(&mut execution, ("a".to_string(),)), Ok(("Hello, a".to_string(),)));
    assert_eq!(greet.state(&execution), CallState::AwaitingFinalize);
    assert_eq!(greet.call(&mut execution, ("b".to_string(),)), Err(CallError::FinalizeRequired));
    assert_eq!(greet.call(&mut execution, ("c".to_string(),)), Err(CallError::FinalizeRequired));
    assert_eq!(greet.state(&execution), CallState::AwaitingFinalize);
    assert_eq!(greet.finalize(&mut execution), Ok(()));
    assert_eq!(greet.state(&execution), CallState::Ready);
    assert_eq!(greet.call(&mut execution, ("d".to_string(),)), Ok(("Hello, d".to_string(),)));
}

#[test]
fn second_finalize_is_refused() {
    let (instance, mut execution) = greeter();
    let handle = item(&instance, &mut execution, "ns:pkg/greetable", "name");
    let name: TypedInvocationBinding<(), (String,)> =
        bind(&instance, &mut execution, &handle).expect("binds");
    assert_eq!(name.finalize(&mut execution), Err(CallError::NothingToFinalize));
    assert_eq!(name.call(&mut execution, ()), Ok(("X".to_string(),)));
    assert_eq!(name.finalize(&mut execution), Ok(()));
    assert_eq!(name.finalize(&mut execution), Err(CallError::NothingToFinalize));
    assert_eq!(name.finalize(&mut execution), Err(CallError::NothingToFinalize));
    assert_eq!(name.state(&execution), CallState::Ready);
}

#[test]
fn round_trip_carries_nothing_over() {
    let (instance, mut execution) = greeter();
    let handle = item(&instance, &mut execution, "ns:pkg/greetable", "greet");
    let greet: TypedInvocationBinding<(String,), (String,)> =
        bind(&instance, &mut execution, &handle).expect("binds");
    assert_eq!(
        greet.call(&mut execution, ("a long first argument".to_string(),)),
        Ok(("Hello, a long first argument".to_string(),))
    );
    assert_eq!(greet.finalize(&mut execution), Ok(()));
    assert_eq!(greet.call(&mut execution, ("b".to_string(),)), Ok(("Hello, b".to_string(),)));
    assert_eq!(greet.finalize(&mut execution), Ok(()));
    assert_eq!(greet.call(&mut execution, (String::new(),)), Ok(("Hello, ".to_string(),)));
    assert_eq!(greet.finalize(&mut execution), Ok(()));
}

#[test]
fn finalize_reaches_the_component() {
    let (instance, mut execution) = greeter();
    let greet_handle = item(&instance, &mut execution, "ns:pkg/greetable", "greet");
    let released_handle = item(&instance, &mut execution, "ns:pkg/tools", "released");
    let greet: TypedInvocationBinding<(String,), (String,)> =
        bind(&instance, &mut execution, &greet_handle).expect("binds");
    let released: TypedInvocationBinding<(), (u32,)> =
        bind(&instance, &mut execution, &released_handle).expect("binds");

    assert_eq!(released.call(&mut execution, ()), Ok((0,)));
    assert_eq!(released.finalize(&mut execution), Ok(()));
    assert_eq!(greet.call(&mut execution, ("a".to_string(),)), Ok(("Hello, a".to_string(),)));
    assert_eq!(greet.finalize(&mut execution), Ok(()));
    assert_eq!(released.call(&mut execution, ()), Ok((1,)));
    assert_eq!(released.finalize(&mut execution), Ok(()));
    assert_eq!(greet.finalize(&mut execution), Err(CallError::NothingToFinalize));
    assert_eq!(released.call(&mut execution, ()), Ok((1,)));
    assert_eq!(released.finalize(&mut execution), Ok(()));
}

#[test]
fn numbers_and_booleans_cross_the_boundary() {
    let (instance, mut execution) = greeter();
    let sum_handle = item(&instance, &mut execution, "ns:pkg/tools", "sum");
    let negate_handle = item(&instance, &mut execution, "ns:pkg/tools", "negate");
    let sum: TypedInvocationBinding<(u32, u32), (u32,)> =
        bind(&instance, &mut execution, &sum_handle).expect("binds");
    let negate: TypedInvocationBinding<(bool,), (bool,)> =
        bind(&instance, &mut execution, &negate_handle).expect("binds");
    assert_eq!(sum.call(&mut execution, (40, 2)), Ok((42,)));
    assert_eq!(sum.finalize(&mut execution), Ok(()));
    assert_eq!(sum.call(&mut execution, (u32::MAX, 1)), Ok((0,)));
    assert_eq!(sum.finalize(&mut execution), Ok(()));
    assert_eq!(negate.call(&mut execution, (true,)), Ok((false,)));
    assert_eq!(negate.finalize(&mut execution), Ok(()));
    assert_eq!(negate.call(&mut execution, (false,)), Ok((true,)));
    assert_eq!(negate.finalize(&mut execution), Ok(()));
}

#[test]
fn a_call_on_another_binding_while_one_awaits_is_a_trap() {
    let (instance, mut execution) = greeter();
    let greet_handle = item(&instance, &mut execution, "ns:pkg/greetable", "greet");
    let name_handle = item(&instance, &mut execution, "ns:pkg/greetable", "name");
    let greet: TypedInvocationBinding<(String,), (String,)> =
        bind(&instance, &mut execution, &greet_handle).expect("binds");
    let name: TypedInvocationBinding<(), (String,)> =
        bind(&instance, &mut execution, &name_handle).expect("binds");
    assert_eq!(greet.call(&mut execution, ("a".to_string(),)), Ok(("Hello, a".to_string(),)));
    assert_eq!(name.call(&mut execution, ()), Err(CallError::Trap));
    assert_eq!(name.state(&execution), CallState::Ready);
    assert_eq!(name.finalize(&mut execution), Err(CallError::NothingToFinalize));
    assert_eq!(greet.finalize(&mut execution), Ok(()));
    assert_eq!(name.call(&mut execution, ()), Ok(("X".to_string(),)));
    assert_eq!(name.finalize(&mut execution), Ok(()));
}

#[test]
fn a_trap_leaves_the_binding_ready_and_the_instance_unusable() {
    let (instance, mut execution) = greeter();
    let fail_handle = item(&instance, &mut execution, "ns:pkg/tools", "fail");
    let sum_handle = item(&instance, &mut execution, "ns:pkg/tools", "sum");
    let fail: TypedInvocationBinding<(), ()> =
        bind(&instance, &mut execution, &fail_handle).expect("binds");
    let sum: TypedInvocationBinding<(u32, u32), (u32,)> =
        bind(&instance, &mut execution, &sum_handle).expect("binds");
    assert_eq!(fail.call(&mut execution, ()), Err(CallError::Trap));
    assert_eq!(fail.state(&execution), CallState::Ready);
    assert_eq!(fail.finalize(&mut execution), Err(CallError::NothingToFinalize));
    assert_eq!(sum.call(&mut execution, (1, 2)), Err(CallError::Trap));
}

const OTHER_GREETER: &str = r#"
(component
  (core module $m
    (func (export "greet") (param i32) (result i32) (local.get 0))
    (func (export "name") (result i32) (i32.const 7)))
  (core instance $i (instantiate $m))
  (func $greet (param "name" u32) (result u32) (canon lift (core func $i "greet")))
  (func $name (result u32) (canon lift (core func $i "name")))
  (instance $greetable
    (export "greet" (func $greet))
    (export "name" (func $name)))
  (export "your-namespace:greet/greetable" (instance $greetable))
)
"#;

const HALF_GREETER: &str = r#"
(component
  (core module $m
    (func (export "name") (result i32) (i32.const 7)))
  (core instance $i (instantiate $m))
  (func $name (result u32) (canon lift (core func $i "name")))
  (instance $greetable
    (export "name" (func $name)))
  (export "your-namespace:greet/greetable" (instance $greetable))
)
"#;

fn launch(text: &str) -> (ComponentInstance, ExecutionContext) {
    let context = small();
    let artifact = ComponentArtifact::load(&context, &binary(text)).expect("loads");
    instantiate(&context, &artifact, nothing()).expect("instantiates")
}

#[test]
fn provider_knows_the_interface_name() {
    assert_eq!(interface_name(), "your-namespace:greet/greetable");
}

#[test]
fn provider_greets_and_stays_ready() {
    let (instance, mut execution) = greeter();
    let greetable = GreetableProvider::connect(&instance, &mut execution).expect("connects");
    assert_eq!(greetable.call_greet(&mut execution, "world"), Ok("Hello, world".to_string()));
    let name = greetable.call_name(&mut execution).expect("returns");
    assert_eq!(name, "X");
    assert_eq!(greetable.call_greet(&mut execution, &name), Ok("Hello, X".to_string()));
    assert_eq!(greetable.call_greet(&mut execution, ""), Ok("Hello, ".to_string()));
    assert_eq!(greetable.call_name(&mut execution), Ok("X".to_string()));
}

#[test]
fn provider_needs_the_interface() {
    let (instance, mut execution) = launch(FAILS_TO_EXPORT);
    assert_eq!(
        GreetableProvider::connect(&instance, &mut execution).err(),
        Some(ConnectError::Resolve(ResolveError::NotFound))
    );
}

#[test]
fn provider_needs_both_items() {
    let (instance, mut execution) = launch(HALF_GREETER);
    assert_eq!(
        GreetableProvider::connect(&instance, &mut execution).err(),
        Some(ConnectError::Resolve(ResolveError::NotFound))
    );
}

#[test]
fn provider_needs_the_declared_types() {
    let (instance, mut execution) = launch(OTHER_GREETER);
    assert_eq!(
        GreetableProvider::connect(&instance, &mut execution).err(),
        Some(ConnectError::Bind(BindError::SignatureMismatch))
    );
}

const FRAGILE: &str = r#"
(component
  (core module $m
    (func (export "fragile") (result i32) (i32.const 5))
    (func (export "break") (param i32) unreachable)
    (func (export "sturdy") (result i32) (i32.const 6)))
  (core instance $i (instantiate $m))
  (func (export "fragile") (result u32)
    (canon lift (core func $i "fragile") (post-return (core func $i "break"))))
  (func (export "sturdy") (result u32) (canon lift (core func $i "sturdy")))
)
"#;

#[test]
fn a_trap_in_finalize_releases_the_binding_and_spoils_the_instance() {
    let (instance, mut execution) = launch(FRAGILE);
    let fragile_handle = resolve(&instance, &mut execution, None, "fragile").expect("found");
    let sturdy_handle = resolve(&instance, &mut execution, None, "sturdy").expect("found");
    let fragile: TypedInvocationBinding<(), (u32,)> =
        bind(&instance, &mut execution, &fragile_handle).expect("binds");
    let sturdy: TypedInvocationBinding<(), (u32,)> =
        bind(&instance, &mut execution, &sturdy_handle).expect("binds");
    assert_eq!(sturdy.call(&mut execution, ()), Ok((6,)));
    assert_eq!(sturdy.finalize(&mut execution), Ok(()));
    assert_eq!(fragile.call(&mut execution, ()), Ok((5,)));
    assert_eq!(fragile.state(&execution), CallState::AwaitingFinalize);
    assert_eq!(fragile.finalize(&mut execution), Err(CallError::Trap));
    assert_eq!(fragile.state(&execution), CallState::Ready);
    assert_eq!(fragile.finalize(&mut execution), Err(CallError::NothingToFinalize));
    assert_eq!(fragile.call(&mut execution, ()), Err(CallError::Trap));
    assert_eq!(sturdy.call(&mut execution, ()), Err(CallError::Trap));
    assert_eq!(sturdy.finalize(&mut execution), Err(CallError::NothingToFinalize));
}

#[test]
fn two_instances_of_one_artifact_do_not_share_state() {
    let context = small();
    let artifact = ComponentArtifact::load(&context, &binary(GREETER)).expect("loads");
    let (first, mut first_execution) =
        instantiate(&context, &artifact, nothing()).expect("instantiates");
    let (second, mut second_execution) =
        instantiate(&context, &artifact, nothing()).expect("instantiates");
    let first_handle = item(&first, &mut first_execution, "ns:pkg/greetable", "greet");
    let second_handle = item(&second, &mut second_execution, "ns:pkg/greetable", "greet");
    let first_greet: TypedInvocationBinding<(String,), (String,)> =
        bind(&first, &mut first_execution, &first_handle).expect("binds");
    let second_greet: TypedInvocationBinding<(String,), (String,)> =
        bind(&second, &mut second_execution, &second_handle).expect("binds");
    assert_eq!(
        first_greet.call(&mut first_execution, ("one".to_string(),)),
        Ok(("Hello, one".to_string(),))
    );
    assert_eq!(
        second_greet.call(&mut second_execution, ("two".to_string(),)),
        Ok(("Hello, two".to_string(),))
    );
    assert_eq!(first_greet.state(&first_execution), CallState::AwaitingFinalize);
    assert_eq!(first_greet.finalize(&mut first_execution), Ok(()));
    assert_eq!(second_greet.state(&second_execution), CallState::AwaitingFinalize);
    assert_eq!(second_greet.finalize(&mut second_execution), Ok(()));
}

#[test]
fn a_handle_is_bound_afresh_each_time() {
    let (instance, mut execution) = greeter();
    let handle = item(&instance, &mut execution, "ns:pkg/greetable", "name");
    let one: TypedInvocationBinding<(), (String,)> =
        bind(&instance, &mut execution, &handle).expect("binds");
    let two: TypedInvocationBinding<(), (String,)> =
        bind(&instance, &mut execution, &handle).expect("binds");
    assert_eq!(one.call(&mut execution, ()), Ok(("X".to_string(),)));
    assert_eq!(two.state(&execution), CallState::Ready);
    assert_eq!(two.finalize(&mut execution), Err(CallError::NothingToFinalize));
    assert_eq!(two.call(&mut execution, ()), Err(CallError::Trap));
    assert_eq!(one.finalize(&mut execution), Ok(()));
    assert_eq!(two.call(&mut execution, ()), Ok(("X".to_string(),)));
    assert_eq!(one.call(&mut execution, ()), Err(CallError::Trap));
    assert_eq!(one.state(&execution), CallState::Ready);
    assert_eq!(two.finalize(&mut execution), Ok(()));
}

#[test]
fn greetings_in_sequence_through_the_provider() {
    let (instance, mut execution) = greeter();
    let greetable = GreetableProvider::connect(&instance, &mut execution).expect("connects");
    let (greetings, outcome) = greetable.greet_twice(&mut execution, "world");
    assert_eq!(greetings, vec!["Hello, world".to_string(), "Hello, X".to_string()]);
    assert_eq!(outcome, Ok(()));
    let (greetings, outcome) = greetable.greet_twice(&mut execution, "");
    assert_eq!(greetings, vec!["Hello, ".to_string(), "Hello, X".to_string()]);
    assert_eq!(outcome, Ok(()));
}

#[test]
fn greetings_in_sequence_step_by_step() {
    let (instance, mut execution) = greeter();
    let (greetings, outcome) = greet_by_hand(&instance, &mut execution, "world!");
    assert_eq!(greetings, vec!["Hello, world!".to_string(), "Hello, X".to_string()]);
    assert_eq!(outcome, Ok(()));
}

#[test]
fn greetings_step_by_step_report_what_is_missing() {
    let (instance, mut execution) = launch(FAILS_TO_EXPORT);
    let (greetings, outcome) = greet_by_hand(&instance, &mut execution, "world!");
    assert_eq!(greetings, Vec::<String>::new());
    assert_eq!(outcome, Err(GreetError::Connect(ConnectError::Resolve(ResolveError::NotFound))));

    let (instance, mut execution) = launch(HALF_GREETER);
    let (greetings, outcome) = greet_by_hand(&instance, &mut execution, "world!");
    assert_eq!(greetings, Vec::<String>::new());
    assert_eq!(outcome, Err(GreetError::Connect(ConnectError::Resolve(ResolveError::NotFound))));

    let (instance, mut execution) = launch(OTHER_GREETER);
    let (greetings, outcome) = greet_by_hand(&instance, &mut execution, "world!");
    assert_eq!(greetings, Vec::<String>::new());
    assert_eq!(
        outcome,
        Err(GreetError::Connect(ConnectError::Bind(BindError::SignatureMismatch)))
    );
}

const GREETER_THAT_FAILS: &str = r#"
(component
  (core module $m
    (memory (export "memory") 1)
    (func (export "realloc") (param i32 i32 i32 i32) (result i32) (i32.const 64))
    (func (export "name") (result i32) unreachable)
    (func (export "greet") (param i32 i32) (result i32)
      (i32.store (i32.const 16) (i32.const 32))
      (i32.store (i32.const 20) (i32.const 2))
      (i32.store8 (i32.const 32) (i32.const 104))
      (i32.store8 (i32.const 33) (i32.const 105))
      (i32.const 16)))
  (core instance $i (instantiate $m))
  (func $name (result string)
    (canon lift (core func $i "name") (memory (core memory $i "memory"))
      (realloc (core func $i "realloc"))))
  (func $greet (param "name" string) (result string)
    (canon lift (core func $i "greet") (memory (core memory $i "memory"))
      (realloc (core func $i "realloc"))))
  (instance $greetable
    (export "greet" (func $greet))
    (export "name" (func $name)))
  (export "your-namespace:greet/greetable" (instance $greetable))
)
"#;

#[test]
fn greetings_stop_at_the_first_trap() {
    let (instance, mut execution) = launch(GREETER_THAT_FAILS);
    let (greetings, outcome) = greet_by_hand(&instance, &mut execution, "you");
    assert_eq!(greetings, vec!["hi".to_string()]);
    assert_eq!(outcome, Err(GreetError::Call(CallError::Trap)));

    let (instance, mut execution) = launch(GREETER_THAT_FAILS);
    let greetable = GreetableProvider::connect(&instance, &mut execution).expect("connects");
    let (greetings, outcome) = greetable.greet_twice(&mut execution, "you");
    assert_eq!(greetings, vec!["hi".to_string()]);
    assert_eq!(outcome, Err(CallError::Trap));
}

#[test]
fn call_arguments_stand_for_the_tuple() {
    assert_eq!(arguments(()), Vec::<wasmtime::component::Val>::new());
    assert_eq!(
        arguments(("a".to_string(), 7u32)),
        vec![wasmtime::component::Val::String("a".to_string()), wasmtime::component::Val::U32(7)]
    );
}

#[test]
fn call_results_are_lifted_only_in_their_shape() {
    let text = vec![wasmtime::component::Val::String("a".to_string())];
    assert_eq!(results::<(String,)>(&text), Some(("a".to_string(),)));
    assert_eq!(results::<(u32,)>(&text), None);
    assert_eq!(results::<()>(&text), None);
    assert_eq!(results::<()>(&Vec::new()), Some(()));
    let other = vec![wasmtime::component::Val::U8(1)];
    assert_eq!(results::<(u32,)>(&other), None);
}

#[test]
fn a_failed_start_is_a_trap() {
    let engine = wasmtime::Engine::default();
    let store = wasmtime::Store::new(&engine, ());
    match started(store, Err(anyhow::Error::msg("no start"))) {
        Err(e) => assert_eq!(e, InstantiateError::Trap),
        Ok(_) => panic!("expected a trap"),
    }
}

#[test]
fn a_refused_link_is_a_missing_import_with_its_description() {
    let refusal = anyhow::Error::msg("inner").context("outer");
    assert_eq!(missing(&refusal), InstantiateError::MissingImport("outer: inner".to_string()));
}

#[test]
fn a_context_works_with_the_engine_it_is_given() {
    let context = RuntimeContext::from_engine(wasmtime::Engine::default());
    assert!(ComponentArtifact::load(&context, &binary("(component)")).is_ok());
    assert_eq!(
        ComponentArtifact::load(&context, &vec![0u8, 1, 2]).err(),
        Some(LoadError::Malformed)
    );
}
