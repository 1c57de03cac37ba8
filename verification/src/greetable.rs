//! A typed front to the `greetable` interface of a greeter component: the
//! interface's two functions, resolved and bound once, each call finalized
//! before it returns.

use vstd::prelude::*;
use vstd::string::*;
use crate::error::{BindError, CallError, ConnectError, GreetError, ResolveError};
use crate::host::{bind, resolve, ComponentInstance, ExecutionContext, TypedInvocationBinding};
use crate::list::ValueList;
use crate::protocol::CallState;
use crate::value::{ValueKind, ValueView};

verus! {

/// The name under which a greeter component exports the interface.
pub open spec fn interface() -> Seq<char> {
    "your-namespace:greet/greetable"@
}

/// The name under which a greeter component exports the interface.
pub fn interface_name() -> (name: &'static str)
    ensures
        name@ == interface(),
{
    "your-namespace:greet/greetable"
}

/// The signature of `greet`: one text in, one text out.
pub open spec fn greet_signature() -> (Seq<ValueKind>, Seq<ValueKind>) {
    (seq![ValueKind::Text], seq![ValueKind::Text])
}

/// The signature of `name`: nothing in, one text out.
pub open spec fn name_signature() -> (Seq<ValueKind>, Seq<ValueKind>) {
    (Seq::empty(), seq![ValueKind::Text])
}

/// What `instance` exports as the interface's item `name`, if it exports
/// the interface and the item.
pub open spec fn item(instance: &ComponentInstance, name: Seq<char>) -> Option<
    wasmtime::component::ComponentExportIndex,
> {
    match instance.lookup(None, interface()) {
        Some(group) => instance.lookup(Some(group), name),
        None => None,
    }
}

/// Tells whether `instance` exports the interface with both its items.
pub open spec fn exports_greetable(instance: &ComponentInstance) -> bool {
    item(instance, "greet"@) is Some && item(instance, "name"@) is Some
}

/// Tells whether `instance` exports `greet` as the interface declares it.
pub open spec fn declares_greet(instance: &ComponentInstance) -> bool {
    item(instance, "greet"@) matches Some(found) && instance.declared(found) == Some(
        greet_signature(),
    )
}

/// Tells whether `instance` exports `name` as the interface declares it.
pub open spec fn declares_name(instance: &ComponentInstance) -> bool {
    item(instance, "name"@) matches Some(found) && instance.declared(found) == Some(
        name_signature(),
    )
}

/// The two functions of the interface, bound in one execution context.
pub struct GreetableProvider {
    greet: TypedInvocationBinding<(String,), (String,)>,
    name: TypedInvocationBinding<(), (String,)>,
}

impl GreetableProvider {
    /// The place of the binding of `greet` among the bindings of its context.
    pub closed spec fn greet_slot(&self) -> nat {
        self.greet.slot()
    }

    /// The place of the binding of `name` among the bindings of its context.
    pub closed spec fn name_slot(&self) -> nat {
        self.name.slot()
    }

    /// Tells whether the provider's two bindings are bindings of `context`
    /// and both may be called.
    pub closed spec fn ready_in(&self, context: &ExecutionContext) -> bool {
        &&& context.wf()
        &&& self.greet.bound_in(context)
        &&& self.name.bound_in(context)
        &&& self.greet.slot() != self.name.slot()
        &&& context.states()[self.greet.slot() as int] == CallState::Ready
        &&& context.states()[self.name.slot() as int] == CallState::Ready
    }

    /// Resolves the interface and its two items, and binds `greet`, then
    /// `name`. Fails with `Resolve` exactly when the instance does not export
    /// the interface with both items, and then leaves the context as it was.
    /// Fails with `Bind` exactly when it does and an item is not declared as
    /// the interface has it; where that item is `name`, the context has kept
    /// the binding of `greet`. On success the context has two bindings more,
    /// both `Ready`.
    pub fn connect(instance: &ComponentInstance, context: &mut ExecutionContext) -> (connected:
        Result<GreetableProvider, ConnectError>)
        requires
            old(context).wf(),
            old(context).hosts(instance),
        ensures
            final(context).wf(),
            final(context).residents() == old(context).residents(),
            match connected {
                Ok(provider) => {
                    &&& exports_greetable(instance)
                    &&& declares_greet(instance)
                    &&& declares_name(instance)
                    &&& provider.greet_slot() == old(context).signatures().len()
                    &&& provider.name_slot() == old(context).signatures().len() + 1
                    &&& provider.ready_in(final(context))
                    &&& final(context).signatures() == old(context).signatures().push(
                        greet_signature(),
                    ).push(name_signature())
                    &&& final(context).states() == old(context).states().push(
                        CallState::Ready,
                    ).push(CallState::Ready)
                },
                Err(ConnectError::Resolve(e)) => {
                    &&& e == ResolveError::NotFound
                    &&& !exports_greetable(instance)
                    &&& *final(context) == *old(context)
                },
                Err(ConnectError::Bind(e)) => {
                    &&& e == BindError::SignatureMismatch
                    &&& exports_greetable(instance)
                    &&& if declares_greet(instance) {
                        &&& !declares_name(instance)
                        &&& final(context).signatures() == old(context).signatures().push(
                            greet_signature(),
                        )
                        &&& final(context).states() == old(context).states().push(
                            CallState::Ready,
                        )
                    } else {
                        &&& final(context).signatures() == old(context).signatures()
                        &&& final(context).states() == old(context).states()
                    }
                },
            },
    {
        let group = match resolve(instance, context, None, interface_name()) {
            Ok(handle) => handle,
            Err(e) => {
                return Err(ConnectError::Resolve(e));
            },
        };
        let greet_handle = match resolve(instance, context, Some(&group), "greet") {
            Ok(handle) => handle,
            Err(e) => {
                return Err(ConnectError::Resolve(e));
            },
        };
        let name_handle = match resolve(instance, context, Some(&group), "name") {
            Ok(handle) => handle,
            Err(e) => {
                return Err(ConnectError::Resolve(e));
            },
        };
        proof {
            context.lemma_one_state_per_binding();
            assert(<(String,) as ValueList>::kinds() =~= seq![ValueKind::Text]);
            assert(<() as ValueList>::kinds() =~= Seq::<ValueKind>::empty());
        }
        let greet: TypedInvocationBinding<(String,), (String,)> = match bind(
            instance,
            context,
            &greet_handle,
        ) {
            Ok(binding) => binding,
            Err(e) => {
                return Err(ConnectError::Bind(e));
            },
        };
        let name: TypedInvocationBinding<(), (String,)> = match bind(
            instance,
            context,
            &name_handle,
        ) {
            Ok(binding) => binding,
            Err(e) => {
                return Err(ConnectError::Bind(e));
            },
        };
        Ok(GreetableProvider { greet, name })
    }

    /// Calls `greet` with `name` and finalizes the call. A text that comes
    /// back is what the component's `greet` handed back for `name`. The
    /// provider is ready again afterwards, whatever the outcome, and the
    /// context's bindings stand where they stood; the only error is `Trap`.
    pub fn call_greet(&self, context: &mut ExecutionContext, name: &str) -> (greeting: Result<
        String,
        CallError,
    >)
        requires
            self.ready_in(old(context)),
        ensures
            self.ready_in(final(context)),
            final(context).residents() == old(context).residents(),
            same_bindings(old(context), final(context)),
            greeted(self.greet_slot(), old(context), name@, greeting),
    {
        proof {
            context.lemma_one_state_per_binding();
        }
        let returned = self.greet.call(context, (String::from_str(name),));
        let released = match returned {
            Ok(_) => Some(self.greet.finalize(context)),
            Err(_) => None,
        };
        proof {
            assert(final(context).states() =~= old(context).states());
        }
        finished(returned, released)
    }

    /// Calls `name` and finalizes the call. A text that comes back is what
    /// the component's `name` handed back. The provider is ready again
    /// afterwards, whatever the outcome, and the context's bindings stand
    /// where they stood; the only error is `Trap`.
    pub fn call_name(&self, context: &mut ExecutionContext) -> (name: Result<String, CallError>)
        requires
            self.ready_in(old(context)),
        ensures
            self.ready_in(final(context)),
            final(context).residents() == old(context).residents(),
            same_bindings(old(context), final(context)),
            named(self.name_slot(), old(context), name),
    {
        proof {
            context.lemma_one_state_per_binding();
        }
        let returned = self.name.call(context, ());
        let released = match returned {
            Ok(_) => Some(self.name.finalize(context)),
            Err(_) => None,
        };
        proof {
            assert(final(context).states() =~= old(context).states());
        }
        finished(returned, released)
    }

    /// Greets `first`, asks the component for its name and greets that
    /// name: the greetings come back in this order. The sequence stops at
    /// the first step that fails, and `gathering` says what comes back for
    /// each outcome of the steps: the greetings made so far and the error,
    /// which can only be `Trap`. Each text is what the component handed
    /// back for what it was given: the first greeting for `first`, the
    /// second for the name that the component gave. The provider is ready
    /// again afterwards, and the context's bindings stand where they stood.
    pub fn greet_twice(&self, context: &mut ExecutionContext, first: &str) -> (out: (
        Vec<String>,
        Result<(), CallError>,
    ))
        requires
            self.ready_in(old(context)),
        ensures
            self.ready_in(final(context)),
            final(context).residents() == old(context).residents(),
            same_bindings(old(context), final(context)),
            exists|
                first_step: Result<String, CallError>,
                name_step: Option<Result<String, CallError>>,
                second_step: Option<Result<String, CallError>>,
                after_first: ExecutionContext,
                after_name: ExecutionContext,
            |
                {
                    &&& #[trigger] sequence(
                        self.greet_slot(),
                        self.name_slot(),
                        old(context),
                        first@,
                        first_step,
                        name_step,
                        second_step,
                        &after_first,
                        &after_name,
                    )
                    &&& (out.0@, out.1) == gathering(first_step, name_step, second_step)
                },
    {
        let first_step = self.call_greet(context, first);
        let ghost after_first = *context;
        let name_step = match first_step {
            Ok(_) => Some(self.call_name(context)),
            Err(_) => None,
        };
        let ghost after_name = *context;
        let second_step = match &name_step {
            Some(Ok(name)) => Some(self.call_greet(context, name.as_str())),
            _ => None,
        };
        proof {
            assert(sequence(
                self.greet_slot(),
                self.name_slot(),
                old(context),
                first@,
                first_step,
                name_step,
                second_step,
                &after_first,
                &after_name,
            ));
        }
        gathered(first_step, name_step, second_step)
    }
}

/// Tells whether the bindings of `after` are those of `before`, each where
/// it stood.
pub open spec fn same_bindings(before: &ExecutionContext, after: &ExecutionContext) -> bool {
    &&& after.wf() == before.wf()
    &&& after.signatures() == before.signatures()
    &&& after.states() == before.states()
}

/// What a call of `greet` with `name`, made and finalized through the
/// binding at `slot` in the state in which `at` is, can give: an error is
/// `Trap`, and a text is what the component handed back for `name`.
pub open spec fn greeted(
    slot: nat,
    at: &ExecutionContext,
    name: Seq<char>,
    step: Result<String, CallError>,
) -> bool {
    match step {
        Ok(text) => at.can_return(
            slot,
            seq![ValueView::Text(name)],
            seq![ValueView::Text(text@)],
        ),
        Err(e) => e == CallError::Trap,
    }
}

/// What a call of `name`, made and finalized through the binding at `slot`
/// in the state in which `at` is, can give: an error is `Trap`, and a text
/// is what the component handed back.
pub open spec fn named(slot: nat, at: &ExecutionContext, step: Result<String, CallError>) -> bool {
    match step {
        Ok(text) => at.can_return(slot, Seq::<ValueView>::empty(), seq![ValueView::Text(text@)]),
        Err(e) => e == CallError::Trap,
    }
}

/// The three steps of a greeting sequence that starts in the state in which
/// `start` is: `greet` with `first`, then `name` in the state in which
/// `after_first` is, then `greet` with the name that came back in the state
/// in which `after_name` is. A step is made exactly where the one before it
/// succeeded, and the bindings stand throughout where they stood.
pub open spec fn sequence(
    greet: nat,
    name: nat,
    start: &ExecutionContext,
    first: Seq<char>,
    first_step: Result<String, CallError>,
    name_step: Option<Result<String, CallError>>,
    second_step: Option<Result<String, CallError>>,
    after_first: &ExecutionContext,
    after_name: &ExecutionContext,
) -> bool {
    &&& well_ordered(first_step, name_step, second_step)
    &&& same_bindings(start, after_first)
    &&& same_bindings(start, after_name)
    &&& greeted(greet, start, first, first_step)
    &&& name_step matches Some(step) ==> named(name, after_first, step)
    &&& second_step matches Some(step) ==> name_step matches Some(Ok(given)) && greeted(
        greet,
        after_name,
        given@,
        step,
    )
}

/// Tells whether each step was made exactly where the one before it
/// succeeded.
pub open spec fn well_ordered(
    first_step: Result<String, CallError>,
    name_step: Option<Result<String, CallError>>,
    second_step: Option<Result<String, CallError>>,
) -> bool {
    &&& first_step is Ok <==> name_step is Some
    &&& (name_step matches Some(Ok(_))) <==> second_step is Some
}

/// What a call gives once it is finalized: its error where it failed, the
/// error of the finalization where that failed, and its result otherwise.
pub open spec fn finishing<T>(
    returned: Result<(T,), CallError>,
    released: Option<Result<(), CallError>>,
) -> Result<T, CallError> {
    match returned {
        Err(e) => Err(e),
        Ok(results) => match released {
            Some(Err(e)) => Err(e),
            _ => Ok(results.0),
        },
    }
}

/// Turns the outcome of a call and of the finalization that followed it
/// into the outcome of the step.
pub fn finished<T>(
    returned: Result<(T,), CallError>,
    released: Option<Result<(), CallError>>,
) -> (step: Result<T, CallError>)
    requires
        returned is Ok <==> released is Some,
    ensures
        step == finishing(returned, released),
{
    match returned {
        Err(e) => Err(e),
        Ok(results) => match released {
            Some(Err(e)) => Err(e),
            _ => Ok(results.0),
        },
    }
}

/// What a greeting sequence reports for the outcomes of its steps: every
/// greeting that was made, in order, and the first error, if there was one.
/// A failure of `name` or of the second `greet` keeps the first greeting.
pub open spec fn gathering(
    first_step: Result<String, CallError>,
    name_step: Option<Result<String, CallError>>,
    second_step: Option<Result<String, CallError>>,
) -> (Seq<String>, Result<(), CallError>) {
    match first_step {
        Err(e) => (Seq::empty(), Err(e)),
        Ok(one) => match name_step {
            Some(Err(e)) => (seq![one], Err(e)),
            Some(Ok(_)) => match second_step {
                Some(Ok(two)) => (seq![one, two], Ok(())),
                Some(Err(e)) => (seq![one], Err(e)),
                None => (seq![one], Err(CallError::Trap)),
            },
            None => (seq![one], Err(CallError::Trap)),
        },
    }
}

/// Turns the outcomes of the steps of a greeting sequence into what the
/// sequence reports.
pub fn gathered(
    first_step: Result<String, CallError>,
    name_step: Option<Result<String, CallError>>,
    second_step: Option<Result<String, CallError>>,
) -> (out: (Vec<String>, Result<(), CallError>))
    requires
        well_ordered(first_step, name_step, second_step),
    ensures
        (out.0@, out.1) == gathering(first_step, name_step, second_step),
{
    let mut greetings: Vec<String> = Vec::new();
    let one = match first_step {
        Ok(text) => text,
        Err(e) => {
            proof {
                assert(greetings@ =~= Seq::<String>::empty());
            }
            return (greetings, Err(e));
        },
    };
    greetings.push(one);
    proof {
        assert(greetings@ =~= seq![one]);
    }
    match name_step {
        Some(Err(e)) => (greetings, Err(e)),
        Some(Ok(_)) => match second_step {
            Some(Ok(two)) => {
                greetings.push(two);
                proof {
                    assert(greetings@ =~= seq![one, two]);
                }
                (greetings, Ok(()))
            },
            Some(Err(e)) => (greetings, Err(e)),
            None => (greetings, Err(CallError::Trap)),
        },
        None => (greetings, Err(CallError::Trap)),
    }
}

/// The outcome of a greeting sequence as the outcome of the whole greeting.
pub open spec fn lifted(outcome: Result<(), CallError>) -> Result<(), GreetError> {
    match outcome {
        Ok(()) => Ok(()),
        Err(e) => Err(GreetError::Call(e)),
    }
}

/// The same greetings from an instance alone: resolves the interface and
/// its two items, binds them, and makes the greeting sequence with `first`.
/// Fails with `Connect` exactly when the instance does not export the
/// interface as it is declared, and then no call is made. Otherwise the two
/// bindings are bindings of the context, both `Ready`, whatever the calls
/// gave; the greetings and the outcome are those of the sequence, and an
/// error of a call comes back as `Call`.
pub fn greet_by_hand(
    instance: &ComponentInstance,
    context: &mut ExecutionContext,
    first: &str,
) -> (out: (Vec<String>, Result<(), GreetError>))
    requires
        old(context).wf(),
        old(context).hosts(instance),
    ensures
        final(context).wf(),
        final(context).residents() == old(context).residents(),
        match out.1 {
            Err(GreetError::Connect(ConnectError::Resolve(e))) => {
                &&& e == ResolveError::NotFound
                &&& !exports_greetable(instance)
                &&& out.0@.len() == 0
                &&& *final(context) == *old(context)
            },
            Err(GreetError::Connect(ConnectError::Bind(e))) => {
                &&& e == BindError::SignatureMismatch
                &&& exports_greetable(instance)
                &&& !(declares_greet(instance) && declares_name(instance))
                &&& out.0@.len() == 0
            },
            _ => {
                &&& exports_greetable(instance)
                &&& declares_greet(instance)
                &&& declares_name(instance)
                &&& final(context).signatures() == old(context).signatures().push(
                    greet_signature(),
                ).push(name_signature())
                &&& final(context).states() == old(context).states().push(CallState::Ready).push(
                    CallState::Ready,
                )
                &&& exists|
                    connected: ExecutionContext,
                    first_step: Result<String, CallError>,
                    name_step: Option<Result<String, CallError>>,
                    second_step: Option<Result<String, CallError>>,
                    after_first: ExecutionContext,
                    after_name: ExecutionContext,
                |
                    {
                        &&& #[trigger] sequence(
                            old(context).signatures().len(),
                            old(context).signatures().len() + 1,
                            &connected,
                            first@,
                            first_step,
                            name_step,
                            second_step,
                            &after_first,
                            &after_name,
                        )
                        &&& same_bindings(&connected, final(context))
                        &&& out.0@ == gathering(first_step, name_step, second_step).0
                        &&& out.1 == lifted(gathering(first_step, name_step, second_step).1)
                    }
            },
        },
{
    let bound = match GreetableProvider::connect(instance, context) {
        Ok(provider) => provider,
        Err(e) => {
            return (Vec::new(), Err(GreetError::Connect(e)));
        },
    };
    let ghost connected = *context;
    let (greetings, outcome) = bound.greet_twice(context, first);
    proof {
        let (first_step, name_step, second_step, after_first, after_name) = choose|
            first_step: Result<String, CallError>,
            name_step: Option<Result<String, CallError>>,
            second_step: Option<Result<String, CallError>>,
            after_first: ExecutionContext,
            after_name: ExecutionContext,
        |
            {
                &&& #[trigger] sequence(
                    bound.greet_slot(),
                    bound.name_slot(),
                    &connected,
                    first@,
                    first_step,
                    name_step,
                    second_step,
                    &after_first,
                    &after_name,
                )
                &&& (greetings@, outcome) == gathering(first_step, name_step, second_step)
            };
        assert(sequence(
            old(context).signatures().len(),
            old(context).signatures().len() + 1,
            &connected,
            first@,
            first_step,
            name_step,
            second_step,
            &after_first,
            &after_name,
        ));
    }
    match outcome {
        Ok(()) => (greetings, Ok(())),
        Err(e) => (greetings, Err(GreetError::Call(e))),
    }
}

} // verus!
