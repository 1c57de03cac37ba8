//! The host capabilities that a component may import, kept by the interface
//! and the name under which the component asks for them.

use vstd::prelude::*;
use vstd::string::*;
use crate::host::ComponentArtifact;
use crate::value::{views, Value};
use crate::convert::{all_marshalable, from_vals, stand_for, to_val, value_of};
use crate::wasm::{
    admits, define_function, define_last_function, fault, interface_names, linker_defines,
    new_linker, nothing_defined, open_namespace, open_root, session_defines, session_end, session_level,
    with_function,
};

verus! {

/// One capability: the interface it belongs to (empty for one that belongs
/// to none), its name there, and the host function that answers for it.
struct Capability<F> {
    namespace: String,
    name: String,
    implementation: F,
}

/// A mapping from (interface, name) to host functions. It is filled step by
/// step, before any component is known, and handed over when a component
/// is instantiated. An empty binder is valid for a component that imports
/// nothing.
pub struct ImportBinder<F> {
    entries: Vec<Capability<F>>,
}

/// Where `key` stands among `keys`, if it does.
pub open spec fn position(keys: Seq<(Seq<char>, Seq<char>)>, key: (Seq<char>, Seq<char>)) -> Option<
    int,
> {
    if exists|i: int| 0 <= i < keys.len() && keys[i] == key {
        Some(choose|i: int| 0 <= i < keys.len() && keys[i] == key)
    } else {
        None
    }
}

impl<F: Fn(Vec<Value>) -> Vec<Value>> ImportBinder<F> {
    /// The keys under which the binder provides a capability, in the order
    /// in which they were first defined.
    pub closed spec fn keys(&self) -> Seq<(Seq<char>, Seq<char>)> {
        self.entries@.map_values(|c: Capability<F>| (c.namespace@, c.name@))
    }

    /// The host functions, each at the place of its key.
    pub closed spec fn implementations(&self) -> Seq<F> {
        self.entries@.map_values(|c: Capability<F>| c.implementation)
    }

    /// The binder's invariant: no key occurs twice, and every host function
    /// answers whatever arguments it is given.
    pub closed spec fn wf(&self) -> bool {
        &&& forall|i: int, j: int|
            0 <= i < j < self.entries@.len() ==> (
            #[trigger] self.entries@[i].namespace@,
            self.entries@[i].name@,
        ) != (#[trigger] self.entries@[j].namespace@, self.entries@[j].name@)
        &&& forall|i: int, args: Vec<Value>|
            0 <= i < self.entries@.len() ==> #[trigger] self.entries@[i].implementation.requires(
                (args,),
            )
    }

    /// Tells whether the binder provides a capability under this key.
    pub open spec fn provides(&self, namespace: Seq<char>, name: Seq<char>) -> bool {
        self.keys().contains((namespace, name))
    }

    /// A binder that provides nothing.
    pub fn new() -> (binder: Self)
        ensures
            binder.wf(),
            binder.keys() == Seq::<(Seq<char>, Seq<char>)>::empty(),
            binder.implementations() == Seq::<F>::empty(),
    {
        let binder = ImportBinder { entries: Vec::new() };
        proof {
            assert(binder.keys() =~= Seq::<(Seq<char>, Seq<char>)>::empty());
            assert(binder.implementations() =~= Seq::<F>::empty());
        }
        binder
    }

    /// How many capabilities the binder provides.
    pub fn len(&self) -> (n: usize)
        ensures
            n == self.keys().len(),
    {
        self.entries.len()
    }

    /// Where the binder keeps the capability of this key, if it has one.
    pub fn find(&self, namespace: &str, name: &str) -> (found: Option<usize>)
        requires
            self.wf(),
        ensures
            match found {
                Some(i) => i < self.keys().len() && self.keys()[i as int] == (namespace@, name@),
                None => !self.provides(namespace@, name@),
            },
    {
        let wanted_namespace = String::from_str(namespace);
        let wanted_name = String::from_str(name);
        let mut i: usize = 0;
        while i < self.entries.len()
            invariant
                i <= self.entries.len(),
                wanted_namespace@ == namespace@,
                wanted_name@ == name@,
                forall|j: int| 0 <= j < i ==> self.keys()[j] != (namespace@, name@),
            decreases self.entries.len() - i,
        {
            if self.entries[i].namespace == wanted_namespace && self.entries[i].name
                == wanted_name {
                return Some(i);
            }
            i += 1;
        }
        None
    }

    /// Registers `implementation` under (`namespace`, `name`). A capability
    /// that the binder already keeps under this key is replaced; otherwise
    /// the binder has one capability more. Nothing is compared with any
    /// component here: that happens when one is instantiated.
    pub fn define(&mut self, namespace: &str, name: &str, implementation: F)
        requires
            old(self).wf(),
            forall|args: Vec<Value>| implementation.requires((args,)),
        ensures
            final(self).wf(),
            final(self).provides(namespace@, name@),
            match position(old(self).keys(), (namespace@, name@)) {
                Some(i) => {
                    &&& final(self).keys() == old(self).keys()
                    &&& final(self).implementations() == old(self).implementations().update(
                        i,
                        implementation,
                    )
                },
                None => {
                    &&& final(self).keys() == old(self).keys().push((namespace@, name@))
                    &&& final(self).implementations() == old(self).implementations().push(
                        implementation,
                    )
                },
            },
    {
        let entry = Capability {
            namespace: String::from_str(namespace),
            name: String::from_str(name),
            implementation,
        };
        match self.find(namespace, name) {
            Some(i) => {
                proof {
                    let key = (namespace@, name@);
                    let keys = old(self).keys();
                    assert(keys[i as int] == key);
                    let chosen = choose|k: int| 0 <= k < keys.len() && keys[k] == key;
                    assert(chosen == i) by {
                        if chosen < i {
                            assert(old(self).entries@[chosen].namespace@ == keys[chosen].0);
                            assert(old(self).entries@[i as int].namespace@ == keys[i as int].0);
                        } else if i < chosen {
                            assert(old(self).entries@[chosen].namespace@ == keys[chosen].0);
                            assert(old(self).entries@[i as int].namespace@ == keys[i as int].0);
                        }
                    }
                }
                self.entries.set(i, entry);
                proof {
                    assert(final(self).keys() =~= old(self).keys());
                    assert(final(self).implementations() =~= old(self).implementations().update(
                        i as int,
                        implementation,
                    ));
                    assert(final(self).keys()[i as int] == (namespace@, name@));
                }
            },
            None => {
                self.entries.push(entry);
                proof {
                    assert(final(self).keys() =~= old(self).keys().push((namespace@, name@)));
                    assert(final(self).implementations() =~= old(self).implementations().push(
                        implementation,
                    ));
                    assert(final(self).keys()[old(self).keys().len() as int] == (
                        namespace@,
                        name@,
                    ));
                    assert forall|i: int, j: int|
                        0 <= i < j < final(self).entries@.len() implies (
                        #[trigger] final(self).entries@[i].namespace@,
                        final(self).entries@[i].name@,
                    ) != (
                        #[trigger] final(self).entries@[j].namespace@,
                        final(self).entries@[j].name@,
                    ) by {
                        if j == old(self).entries@.len() {
                            assert(old(self).keys()[i] != (namespace@, name@));
                        }
                    }
                }
            },
        }
    }
}

/// Answers one call of a component to a host function: hands the arguments
/// to `implementation` and writes what it returns into `results`, one for
/// one. A call with an argument of a kind that this layer does not marshal
/// is an error, and `implementation` is not asked. An answer that does not
/// fill the result slots one for one is an error too. On an error the
/// result slots are left as they were, and the component that made the call
/// traps.
pub(crate) fn answer<F: Fn(Vec<Value>) -> Vec<Value>>(
    implementation: &F,
    args: &[wasmtime::component::Val],
    results: &mut [wasmtime::component::Val],
) -> (done: Result<(), anyhow::Error>)
    requires
        forall|given: Vec<Value>| implementation.requires((given,)),
    ensures
        final(results)@.len() == old(results)@.len(),
        !all_marshalable(args@) ==> done is Err && final(results)@ == old(results)@,
        all_marshalable(args@) ==> exists|given: Vec<Value>, answers: Vec<Value>|
            {
                &&& stand_for(args@, views(given@))
                &&& #[trigger] implementation.ensures((given,), answers)
                &&& if answers@.len() == old(results)@.len() {
                    done is Ok && stand_for(final(results)@, views(answers@))
                } else {
                    done is Err && final(results)@ == old(results)@
                }
            },
{
    let given = match from_vals(args) {
        Some(values) => values,
        None => {
            return Err(fault("an argument is of a kind that the host does not marshal"));
        },
    };
    proof {
        assert forall|i: int| 0 <= i < args@.len() implies value_of(#[trigger] args@[i])
            is Some by {
            assert(value_of(args@[i]) == Some(views(given@)[i]));
        }
    }
    let ghost handed = given;
    let answers = implementation(given);
    if answers.len() != results.len() {
        proof {
            assert(implementation.ensures((handed,), answers));
        }
        return Err(fault("the host function does not fill the result slots"));
    }
    let mut i: usize = 0;
    while i < answers.len()
        invariant
            i <= answers.len(),
            answers.len() == results.len(),
            results@.len() == old(results)@.len(),
            forall|j: int| 0 <= j < i ==> value_of(#[trigger] results@[j]) == Some(answers@[j]@),
        decreases answers.len() - i,
    {
        results[i] = to_val(&answers[i]);
        i += 1;
    }
    proof {
        assert(stand_for(results@, views(answers@)));
        assert(implementation.ensures((handed,), answers));
    }
    Ok(())
}

/// The key of a capability.
spec fn key_of<F>(c: Capability<F>) -> (Seq<char>, Seq<char>) {
    (c.namespace@, c.name@)
}

/// Tells whether one of `rest` has the key `k`.
spec fn holds<F>(rest: Seq<Capability<F>>, k: (Seq<char>, Seq<char>)) -> bool {
    exists|i: int| 0 <= i < rest.len() && key_of(#[trigger] rest[i]) == k
}

/// Tells whether every host function of `rest` answers whatever arguments
/// it is given.
spec fn total<F: Fn(Vec<Value>) -> Vec<Value>>(rest: Seq<Capability<F>>) -> bool {
    forall|i: int, args: Vec<Value>|
        0 <= i < rest.len() ==> #[trigger] rest[i].implementation.requires((args,))
}

/// The names of the capabilities of `batch`.
spec fn names_of<F>(batch: Seq<Capability<F>>) -> Set<Seq<char>> {
    Set::new(|n: Seq<char>| exists|i: int| 0 <= i < batch.len() && (#[trigger] batch[i]).name@ == n)
}

/// What a session that started from `defines` at `level` has come to when
/// the host functions `names` were handed to it: at the top level each name
/// that was not defined before stands for a function; in an interface the
/// names stand beside those that the interface held.
pub open spec fn grown(
    defines: Map<Seq<char>, Option<Set<Seq<char>>>>,
    level: Option<Seq<char>>,
    names: Set<Seq<char>>,
) -> Map<Seq<char>, Option<Set<Seq<char>>>> {
    match level {
        None => Map::new(
            |top: Seq<char>| defines.dom().contains(top) || names.contains(top),
            |top: Seq<char>|
                if defines.dom().contains(top) {
                    defines[top]
                } else {
                    None
                },
        ),
        Some(interface) => defines.insert(
            interface,
            Some(interface_names(defines, interface).union(names)),
        ),
    }
}

/// What a linker defines that was built from capabilities under `keys`. A
/// key with an empty interface stands for a host function at the top level.
/// Every other interface stands at the top level with the names of its
/// host functions, unless a host function of the top level has its name:
/// the runtime then refuses the interface.
pub open spec fn defined(keys: Seq<(Seq<char>, Seq<char>)>) -> Map<
    Seq<char>,
    Option<Set<Seq<char>>>,
> {
    Map::new(
        |top: Seq<char>|
            keys.contains((Seq::<char>::empty(), top)) || (top.len() > 0 && exists|n: Seq<char>|
                #[trigger] keys.contains((top, n))),
        |top: Seq<char>|
            if keys.contains((Seq::<char>::empty(), top)) {
                None
            } else {
                Some(Set::new(|n: Seq<char>| keys.contains((top, n))))
            },
    )
}

proof fn lemma_remove_holds<F>(s: Seq<Capability<F>>, i: int, k: (Seq<char>, Seq<char>))
    requires
        0 <= i < s.len(),
    ensures
        holds(s, k) <==> holds(s.remove(i), k) || key_of(s[i]) == k,
{
    let r = s.remove(i);
    if holds(s, k) {
        let j = choose|j: int| 0 <= j < s.len() && key_of(#[trigger] s[j]) == k;
        if j < i {
            assert(key_of(r[j]) == k);
        } else if j > i {
            assert(key_of(r[j - 1]) == k);
        }
    }
    if holds(r, k) {
        let j = choose|j: int| 0 <= j < r.len() && key_of(#[trigger] r[j]) == k;
        if j < i {
            assert(key_of(s[j]) == k);
        } else {
            assert(key_of(s[j + 1]) == k);
        }
    }
    if key_of(s[i]) == k {
        assert(holds(s, k));
    }
}

proof fn lemma_push_holds<F>(s: Seq<Capability<F>>, e: Capability<F>, k: (Seq<char>, Seq<char>))
    ensures
        holds(s.push(e), k) <==> holds(s, k) || key_of(e) == k,
{
    let r = s.push(e);
    if holds(s, k) {
        let j = choose|j: int| 0 <= j < s.len() && key_of(#[trigger] s[j]) == k;
        assert(key_of(r[j]) == k);
    }
    if key_of(e) == k {
        assert(key_of(r[s.len() as int]) == k);
    }
    if holds(r, k) {
        let j = choose|j: int| 0 <= j < r.len() && key_of(#[trigger] r[j]) == k;
        if j < s.len() {
            assert(key_of(s[j]) == k);
        }
    }
}

/// Takes out of `rest` every capability that belongs to `namespace`. Each
/// capability that `rest` held is afterwards in `rest` or in the batch that
/// comes back, by its key; the batch holds those of `namespace` and `rest`
/// the others.
fn take_group<F: Fn(Vec<Value>) -> Vec<Value>>(
    rest: &mut Vec<Capability<F>>,
    namespace: &String,
) -> (batch: Vec<Capability<F>>)
    requires
        total(old(rest)@),
    ensures
        total(final(rest)@),
        total(batch@),
        final(rest)@.len() + batch@.len() == old(rest)@.len(),
        forall|i: int| 0 <= i < batch@.len() ==> (#[trigger] batch@[i]).namespace@ == namespace@,
        forall|i: int|
            0 <= i < final(rest)@.len() ==> (#[trigger] final(rest)@[i]).namespace@ != namespace@,
        forall|k: (Seq<char>, Seq<char>)|
            #[trigger] holds(old(rest)@, k) <==> holds(final(rest)@, k) || holds(batch@, k),
{
    let ghost origin = rest@;
    let mut batch: Vec<Capability<F>> = Vec::new();
    let mut i: usize = rest.len();
    proof {
        assert forall|k: (Seq<char>, Seq<char>)| !holds(batch@, k) by {}
    }
    while i > 0
        invariant
            i <= rest@.len(),
            total(rest@),
            total(batch@),
            rest@.len() + batch@.len() == origin.len(),
            forall|j: int| 0 <= j < batch@.len() ==> (#[trigger] batch@[j]).namespace@ == namespace@,
            forall|j: int| i <= j < rest@.len() ==> (#[trigger] rest@[j]).namespace@ != namespace@,
            forall|k: (Seq<char>, Seq<char>)|
                #[trigger] holds(origin, k) <==> holds(rest@, k) || holds(batch@, k),
        decreases i,
    {
        i -= 1;
        if rest[i].namespace == *namespace {
            let ghost before = rest@;
            let ghost taken = batch@;
            let entry = rest.remove(i);
            batch.push(entry);
            proof {
                assert forall|k: (Seq<char>, Seq<char>)|
                    #[trigger] holds(origin, k) <==> holds(rest@, k) || holds(batch@, k) by {
                    lemma_remove_holds(before, i as int, k);
                    lemma_push_holds(taken, entry, k);
                }
            }
        }
    }
    batch
}

proof fn lemma_grown_step(
    defines: Map<Seq<char>, Option<Set<Seq<char>>>>,
    level: Option<Seq<char>>,
    names: Set<Seq<char>>,
    name: Seq<char>,
)
    ensures
        grown(defines, level, names.insert(name)) == if admits(
            grown(defines, level, names),
            level,
            name,
        ) {
            with_function(grown(defines, level, names), level, name)
        } else {
            grown(defines, level, names)
        },
        grown(defines, level, Set::<Seq<char>>::empty()) == match level {
            None => defines,
            Some(interface) => defines.insert(interface, Some(interface_names(defines, interface))),
        },
{
    let so_far = grown(defines, level, names);
    let next = grown(defines, level, names.insert(name));
    match level {
        None => {
            if admits(so_far, level, name) {
                assert(next =~= with_function(so_far, level, name));
            } else {
                assert(next =~= so_far);
            }
            assert(grown(defines, level, Set::<Seq<char>>::empty()) =~= defines);
        },
        Some(interface) => {
            let held = interface_names(defines, interface);
            assert(interface_names(so_far, interface) == held.union(names));
            if admits(so_far, level, name) {
                assert(held.union(names).insert(name) =~= held.union(names.insert(name)));
                assert(next =~= with_function(so_far, level, name));
            } else {
                assert(held.union(names) =~= held.union(names.insert(name)));
                assert(next =~= so_far);
            }
            assert(held.union(Set::<Seq<char>>::empty()) =~= held);
        },
    }
}

proof fn lemma_names_step<F>(batch: Seq<Capability<F>>, m: int)
    requires
        0 < m <= batch.len(),
    ensures
        names_of(batch.skip(m - 1)) == names_of(batch.skip(m)).insert(batch[m - 1].name@),
        names_of(batch.skip(batch.len() as int)) == Set::<Seq<char>>::empty(),
        batch.skip(0) == batch,
{
    let longer = batch.skip(m - 1);
    let shorter = batch.skip(m);
    assert forall|n: Seq<char>|
        names_of(longer).contains(n) <==> names_of(shorter).insert(batch[m - 1].name@).contains(
            n,
        ) by {
        if names_of(longer).contains(n) {
            let i = choose|i: int| 0 <= i < longer.len() && (#[trigger] longer[i]).name@ == n;
            if i > 0 {
                assert(shorter[i - 1].name@ == n);
            }
        }
        if names_of(shorter).contains(n) {
            let i = choose|i: int| 0 <= i < shorter.len() && (#[trigger] shorter[i]).name@ == n;
            assert(longer[i + 1].name@ == n);
        }
        if batch[m - 1].name@ == n {
            assert(longer[0].name@ == n);
        }
    }
    assert(names_of(longer) =~= names_of(shorter).insert(batch[m - 1].name@));
    assert(names_of(batch.skip(batch.len() as int)) =~= Set::<Seq<char>>::empty());
    assert(batch.skip(0) =~= batch);
}

/// Hands every capability of `batch` to the session `group`, and ends the
/// session with the last of them. A definition that the runtime refuses
/// changes nothing: its name is already defined where it would stand.
fn define_batch<F: Fn(Vec<Value>) -> Vec<Value> + Send + Sync + 'static>(
    group: wasmtime::component::LinkerInstance<'_, ()>,
    batch: Vec<Capability<F>>,
)
    requires
        batch@.len() > 0,
        total(batch@),
        grown(session_defines(group), session_level(group), Set::<Seq<char>>::empty())
            == session_defines(group),
    ensures
        session_end(group) == grown(
            session_defines(group),
            session_level(group),
            names_of(batch@),
        ),
{
    let ghost started = session_defines(group);
    let ghost level = session_level(group);
    let ghost closes = session_end(group);
    let ghost all = batch@;
    let mut group = group;
    let mut batch = batch;
    proof {
        lemma_names_step(all, all.len() as int);
    }
    while batch.len() > 1
        invariant
            0 < batch@.len() <= all.len(),
            batch@ == all.take(batch@.len() as int),
            total(batch@),
            session_level(group) == level,
            session_end(group) == closes,
            session_defines(group) == grown(
                started,
                level,
                names_of(all.skip(batch@.len() as int)),
            ),
        decreases batch@.len(),
    {
        let ghost m = batch@.len() as int;
        let entry = batch.pop().unwrap();
        proof {
            assert(entry == all[m - 1]);
            assert(batch@ =~= all.take(m - 1));
            lemma_names_step(all, m);
            lemma_grown_step(started, level, names_of(all.skip(m)), entry.name@);
        }
        let _ = define_function(&mut group, entry.name.as_str(), entry.implementation);
    }
    let last = batch.pop().unwrap();
    proof {
        assert(last == all[0]);
        lemma_names_step(all, 1);
        lemma_grown_step(started, level, names_of(all.skip(1)), last.name@);
    }
    let _ = define_last_function(group, last.name.as_str(), last.implementation);
}

proof fn lemma_keys_hold<F: Fn(Vec<Value>) -> Vec<Value>>(
    binder: &ImportBinder<F>,
    k: (Seq<char>, Seq<char>),
)
    ensures
        binder.keys().contains(k) <==> holds(binder.entries@, k),
{
    let keys = binder.keys();
    let entries = binder.entries@;
    if keys.contains(k) {
        let i = choose|i: int| 0 <= i < keys.len() && keys[i] == k;
        assert(key_of(entries[i]) == k);
    }
    if holds(entries, k) {
        let i = choose|i: int| 0 <= i < entries.len() && key_of(#[trigger] entries[i]) == k;
        assert(keys[i] == k);
    }
}

impl<F: Fn(Vec<Value>) -> Vec<Value> + Send + Sync + 'static> ImportBinder<F> {
    /// What a linker defines that is built from this binder.
    pub open spec fn defines(&self) -> Map<Seq<char>, Option<Set<Seq<char>>>> {
        defined(self.keys())
    }

    /// Tells whether the binder satisfies the imports of `artifact`: whether
    /// the runtime matches them against what the binder defines.
    pub open spec fn satisfies(&self, artifact: &ComponentArtifact) -> bool {
        artifact.matched_by(self.defines())
    }

    /// Builds the runtime's linker from the binder: first the host functions
    /// that belong to no interface, at the linker's top level, then
    /// interface by interface, each with all its host functions. The linker
    /// defines exactly what `defines` says of the binder's keys.
    pub(crate) fn into_linker(self, engine: &wasmtime::Engine) -> (linker:
        wasmtime::component::Linker<()>)
        requires
            self.wf(),
        ensures
            linker_defines(linker) == self.defines(),
    {
        let ghost all = self.entries@;
        let ghost keys = self.keys();
        proof {
            assert forall|k: (Seq<char>, Seq<char>)| keys.contains(k) <==> #[trigger] holds(
                all,
                k,
            ) by {
                lemma_keys_hold(&self, k);
            }
        }
        let mut linker = new_linker(engine);
        let mut rest = self.entries;
        let top = String::new();
        let roots = take_group(&mut rest, &top);
        let ghost root_names = names_of(roots@);
        proof {
            assert forall|n: Seq<char>| root_names.contains(n) <==> holds(
                all,
                (Seq::<char>::empty(), n),
            ) by {
                let k = (Seq::<char>::empty(), n);
                if root_names.contains(n) {
                    let i = choose|i: int| 0 <= i < roots@.len() && (#[trigger] roots@[i]).name@ == n;
                    assert(roots@[i].namespace@ =~= Seq::<char>::empty());
                    assert(key_of(roots@[i]) == k);
                    assert(holds(roots@, k));
                }
                if holds(all, k) {
                    if holds(rest@, k) {
                        let i = choose|i: int|
                            0 <= i < rest@.len() && key_of(#[trigger] rest@[i]) == k;
                        assert(rest@[i].namespace@ == top@);
                    }
                    let i = choose|i: int| 0 <= i < roots@.len() && key_of(#[trigger] roots@[i]) == k;
                    assert(roots@[i].name@ == n);
                }
            }
            assert(grown(nothing_defined(), None, Set::<Seq<char>>::empty()) =~= nothing_defined());
        }
        if roots.len() > 0 {
            let group = open_root(&mut linker);
            define_batch(group, roots);
        } else {
            proof {
                assert(root_names =~= Set::<Seq<char>>::empty());
            }
        }
        let ghost mut done: Set<Seq<char>> = Set::empty();
        proof {
            assert(linker_defines(linker) =~= grown(nothing_defined(), None, root_names));
            assert forall|k: (Seq<char>, Seq<char>)| #[trigger] holds(rest@, k) implies holds(
                all,
                k,
            ) && k.0.len() > 0 by {
                let i = choose|i: int| 0 <= i < rest@.len() && key_of(#[trigger] rest@[i]) == k;
                assert(rest@[i].namespace@ != top@);
                if k.0.len() == 0 {
                    assert(k.0 =~= Seq::<char>::empty());
                }
                assert(holds(all, k) <==> holds(rest@, k) || holds(roots@, k));
            }
        }
        while rest.len() > 0
            invariant
                total(rest@),
                top@ == Seq::<char>::empty(),
                forall|k: (Seq<char>, Seq<char>)| keys.contains(k) <==> #[trigger] holds(all, k),
                forall|k: (Seq<char>, Seq<char>)|
                    #[trigger] holds(rest@, k) ==> holds(all, k) && k.0.len() > 0,
                forall|k: (Seq<char>, Seq<char>)|
                    #[trigger] holds(all, k) && k.0.len() > 0 ==> (holds(rest@, k)
                        <==> !done.contains(k.0)),
                forall|t: Seq<char>|
                    done.contains(t) ==> t.len() > 0 && exists|n: Seq<char>|
                        #[trigger] holds(all, (t, n)),
                forall|t: Seq<char>|
                    #[trigger] linker_defines(linker).dom().contains(t) <==> holds(
                        all,
                        (Seq::<char>::empty(), t),
                    ) || done.contains(t),
                forall|t: Seq<char>|
                    linker_defines(linker).dom().contains(t) ==> #[trigger] linker_defines(
                        linker,
                    )[t] == if holds(all, (Seq::<char>::empty(), t)) {
                        None
                    } else {
                        Some(Set::new(|n: Seq<char>| holds(all, (t, n))))
                    },
            decreases rest@.len(),
        {
            let namespace = rest[rest.len() - 1].namespace.clone();
            let ghost before = rest@;
            let ghost had = linker_defines(linker);
            let ghost ns = namespace@;
            proof {
                let last = before[before.len() - 1];
                assert(key_of(last) == (ns, last.name@));
                assert(holds(before, (ns, last.name@)));
            }
            let batch = take_group(&mut rest, &namespace);
            proof {
                let last = before[before.len() - 1];
                let k = (ns, last.name@);
                if holds(rest@, k) {
                    let i = choose|i: int| 0 <= i < rest@.len() && key_of(#[trigger] rest@[i]) == k;
                    assert(rest@[i].namespace@ != ns);
                }
                assert(holds(batch@, k));
                assert(batch@.len() > 0);
                assert(!done.contains(ns));
                assert forall|n: Seq<char>| names_of(batch@).contains(n) <==> holds(
                    all,
                    (ns, n),
                ) by {
                    let kn = (ns, n);
                    if names_of(batch@).contains(n) {
                        let i = choose|i: int|
                            0 <= i < batch@.len() && (#[trigger] batch@[i]).name@ == n;
                        assert(key_of(batch@[i]) == kn);
                        assert(holds(batch@, kn));
                        assert(holds(before, kn));
                    }
                    if holds(all, kn) {
                        assert(holds(before, kn));
                        if holds(rest@, kn) {
                            let i = choose|i: int|
                                0 <= i < rest@.len() && key_of(#[trigger] rest@[i]) == kn;
                            assert(rest@[i].namespace@ != ns);
                        }
                        let i = choose|i: int|
                            0 <= i < batch@.len() && key_of(#[trigger] batch@[i]) == kn;
                        assert(batch@[i].name@ == n);
                    }
                }
                assert(names_of(batch@) =~= Set::new(|n: Seq<char>| holds(all, (ns, n))));
                assert forall|k2: (Seq<char>, Seq<char>)| #[trigger] holds(rest@, k2) implies holds(
                    all,
                    k2,
                ) && k2.0.len() > 0 by {
                    assert(holds(before, k2) <==> holds(rest@, k2) || holds(batch@, k2));
                }
                assert forall|k2: (Seq<char>, Seq<char>)|
                    #[trigger] holds(all, k2) && k2.0.len() > 0 implies (holds(rest@, k2)
                        <==> !done.insert(ns).contains(k2.0)) by {
                    assert(holds(before, k2) <==> holds(rest@, k2) || holds(batch@, k2));
                    if k2.0 == ns {
                        if holds(rest@, k2) {
                            let i = choose|i: int|
                                0 <= i < rest@.len() && key_of(#[trigger] rest@[i]) == k2;
                            assert(rest@[i].namespace@ != ns);
                        }
                    } else {
                        if holds(batch@, k2) {
                            let i = choose|i: int|
                                0 <= i < batch@.len() && key_of(#[trigger] batch@[i]) == k2;
                            assert(batch@[i].namespace@ == ns);
                        }
                    }
                }
            }
            match open_namespace(&mut linker, namespace.as_str()) {
                Ok(group) => {
                    proof {
                        let opened = session_defines(group);
                        assert(interface_names(opened, ns) =~= Set::<Seq<char>>::empty());
                        assert(Set::<Seq<char>>::empty().union(Set::<Seq<char>>::empty())
                            =~= Set::<Seq<char>>::empty());
                        assert(grown(opened, Some(ns), Set::<Seq<char>>::empty()) =~= opened);
                    }
                    define_batch(group, batch);
                    proof {
                        let opened = had.insert(ns, Some(Set::<Seq<char>>::empty()));
                        assert(interface_names(opened, ns) =~= Set::<Seq<char>>::empty());
                        assert(Set::<Seq<char>>::empty().union(names_of(batch@)) =~= names_of(
                            batch@,
                        ));
                        assert(linker_defines(linker) =~= had.insert(ns, Some(names_of(batch@))));
                    }
                },
                Err(_) => {},
            }
            proof {
                done = done.insert(ns);
            }
        }
        proof {
            assert forall|t: Seq<char>|
                linker_defines(linker).dom().contains(t) <==> defined(keys).dom().contains(
                    t,
                ) by {
                if t.len() > 0 && exists|n: Seq<char>| #[trigger] keys.contains((t, n)) {
                    let n = choose|n: Seq<char>| #[trigger] keys.contains((t, n));
                    assert(holds(all, (t, n)));
                    assert(!holds(rest@, (t, n)));
                    assert(done.contains(t));
                }
                if done.contains(t) {
                    let n = choose|n: Seq<char>| #[trigger] holds(all, (t, n));
                    assert(keys.contains((t, n)));
                }
            }
            assert forall|t: Seq<char>| linker_defines(linker).dom().contains(t) implies
                #[trigger] linker_defines(linker)[t] == defined(keys)[t] by {
                assert(Set::new(|n: Seq<char>| holds(all, (t, n))) =~= Set::new(
                    |n: Seq<char>| keys.contains((t, n)),
                ));
            }
            assert(linker_defines(linker) =~= defined(keys));
        }
        linker
    }
}

} // verus!
