use vstd::prelude::*;
use vstd::string::StringExecFns;

use crate::catalog::module_for_key;
use crate::catalog::module_natives;
use crate::catalog::module_natives_vec;
use crate::catalog::module_of_key;
use crate::catalog::native_name;
use crate::catalog::native_name_str;
use crate::text::str_eq;
use crate::values::ModuleId;
use crate::values::NativeId;
use crate::values::Value;

verus! {

/// The bindings described by a list of (name, value) pairs, later pairs
/// overriding earlier ones.
pub open spec fn env_map_of(s: Seq<(String, Value)>) -> Map<Seq<char>, Value>
    decreases s.len(),
{
    if s.len() == 0 {
        Map::empty()
    } else {
        env_map_of(s.drop_last()).insert(s.last().0@, s.last().1)
    }
}

/// No two pairs carry the same name.
pub open spec fn unique_names(s: Seq<(String, Value)>) -> bool {
    forall|i: int, j: int| 0 <= i < j < s.len() ==> s[i].0@ != s[j].0@
}

proof fn lemma_env_map_absent(s: Seq<(String, Value)>, k: Seq<char>)
    requires
        forall|j: int| 0 <= j < s.len() ==> (#[trigger] s[j]).0@ != k,
    ensures
        !env_map_of(s).dom().contains(k),
    decreases s.len(),
{
    if s.len() > 0 {
        assert(forall|j: int|
            0 <= j < s.drop_last().len() ==> (#[trigger] s.drop_last()[j]).0@ != k);
        lemma_env_map_absent(s.drop_last(), k);
    }
}

proof fn lemma_env_map_found(s: Seq<(String, Value)>, j: int)
    requires
        0 <= j < s.len(),
        unique_names(s),
    ensures
        env_map_of(s).dom().contains(s[j].0@),
        env_map_of(s)[s[j].0@] == s[j].1,
    decreases s.len(),
{
    if j < s.len() - 1 {
        assert(forall|a: int, b: int|
            0 <= a < b < s.drop_last().len() ==> (#[trigger] s.drop_last()[a]).0@ != (
            #[trigger] s.drop_last()[b]).0@);
        lemma_env_map_found(s.drop_last(), j);
        assert(s.drop_last()[j] == s[j]);
        assert(s[j].0@ != s.last().0@);
    }
}

proof fn lemma_env_map_dom_len(s: Seq<(String, Value)>)
    requires
        unique_names(s),
    ensures
        env_map_of(s).dom().finite(),
        env_map_of(s).dom().len() == s.len(),
    decreases s.len(),
{
    if s.len() > 0 {
        assert(forall|a: int, b: int|
            0 <= a < b < s.drop_last().len() ==> (#[trigger] s.drop_last()[a]).0@ != (
            #[trigger] s.drop_last()[b]).0@);
        lemma_env_map_dom_len(s.drop_last());
        assert(forall|j: int|
            0 <= j < s.drop_last().len() ==> (#[trigger] s.drop_last()[j]).0@ != s.last().0@);
        lemma_env_map_absent(s.drop_last(), s.last().0@);
    }
}

proof fn lemma_env_map_update(s: Seq<(String, Value)>, i: int, p: (String, Value))
    requires
        0 <= i < s.len(),
        s[i].0@ == p.0@,
        unique_names(s),
    ensures
        env_map_of(s.update(i, p)) == env_map_of(s).insert(p.0@, p.1),
    decreases s.len(),
{
    let t = s.update(i, p);
    if i == s.len() - 1 {
        assert(t.drop_last() =~= s.drop_last());
        assert(t.last() == p);
        assert(env_map_of(t) == env_map_of(s.drop_last()).insert(p.0@, p.1));
        assert(env_map_of(s.drop_last()).insert(s.last().0@, s.last().1).insert(p.0@, p.1)
            =~= env_map_of(s.drop_last()).insert(p.0@, p.1));
    } else {
        assert(forall|a: int, b: int|
            0 <= a < b < s.drop_last().len() ==> (#[trigger] s.drop_last()[a]).0@ != (
            #[trigger] s.drop_last()[b]).0@);
        lemma_env_map_update(s.drop_last(), i, p);
        assert(t.drop_last() =~= s.drop_last().update(i, p));
        assert(t.last() == s.last());
        assert(s[i].0@ != s.last().0@);
        assert(env_map_of(s.drop_last()).insert(p.0@, p.1).insert(s.last().0@, s.last().1)
            =~= env_map_of(s.drop_last()).insert(s.last().0@, s.last().1).insert(p.0@, p.1));
    }
}

/// The runtime environment's function table: a mutable mapping from names
/// to values, modelled as a list of pairs that never carries a name twice.
pub struct RuntimeEnvironment {
    functions: Vec<(String, Value)>,
}

impl View for RuntimeEnvironment {
    type V = Map<Seq<char>, Value>;

    closed spec fn view(&self) -> Map<Seq<char>, Value> {
        env_map_of(self.functions@)
    }
}

impl RuntimeEnvironment {
    /// The environment never holds two simultaneous bindings for one name.
    pub closed spec fn wf(&self) -> bool {
        unique_names(self.functions@)
    }

    /// An environment with no bindings.
    pub fn new() -> (r: RuntimeEnvironment)
        ensures
            r.wf(),
            r@ == Map::<Seq<char>, Value>::empty(),
    {
        RuntimeEnvironment { functions: Vec::new() }
    }

    /// How many names are bound.
    pub fn binding_count(&self) -> (r: usize)
        requires
            self.wf(),
        ensures
            self@.dom().finite(),
            r == self@.dom().len(),
    {
        proof {
            lemma_env_map_dom_len(self.functions@);
        }
        self.functions.len()
    }

    /// Installs or replaces the binding for `name`: afterwards `name` is
    /// bound to `value` and every other binding is unchanged.
    pub fn define_function(&mut self, name: String, value: Value)
        requires
            old(self).wf(),
        ensures
            final(self).wf(),
            final(self)@ == old(self)@.insert(name@, value),
    {
        let n = self.functions.len();
        let mut i: usize = 0;
        while i < n
            invariant
                n == self.functions@.len(),
                i <= n,
                old(self).wf(),
                self.functions@ == old(self).functions@,
                forall|j: int| 0 <= j < i ==> (#[trigger] self.functions@[j]).0@ != name@,
            decreases n - i,
        {
            if str_eq(self.functions[i].0.as_str(), name.as_str()) {
                let ghost s_old = self.functions@;
                let ghost idx = i as int;
                proof {
                    lemma_env_map_update(s_old, idx, (name, value));
                }
                self.functions[i] = (name, value);
                proof {
                    let s_new = self.functions@;
                    assert(s_new == s_old.update(idx, (name, value)));
                    assert forall|a: int, b: int|
                        0 <= a < b < s_new.len() implies (#[trigger] s_new[a]).0@ != (
                    #[trigger] s_new[b]).0@ by {
                        assert(s_old[a].0@ != s_old[b].0@);
                        assert(a == idx || s_new[a] == s_old[a]);
                        assert(b == idx || s_new[b] == s_old[b]);
                        assert(a != idx || s_new[a].0@ == s_old[a].0@);
                        assert(b != idx || s_new[b].0@ == s_old[b].0@);
                    }
                }
                return ;
            }
            i += 1;
        }
        proof {
            lemma_env_map_absent(self.functions@, name@);
        }
        self.functions.push((name, value));
        proof {
            assert(self.functions@.drop_last() =~= old(self).functions@);
            assert(self@ == old(self)@.insert(name@, value));
        }
    }

    /// The value bound to `name`, if any.
    pub fn lookup(&self, name: &str) -> (r: Option<&Value>)
        requires
            self.wf(),
        ensures
            match r {
                Some(v) => self@.dom().contains(name@) && *v == self@[name@],
                None => !self@.dom().contains(name@),
            },
    {
        let n = self.functions.len();
        let mut i: usize = 0;
        while i < n
            invariant
                n == self.functions@.len(),
                i <= n,
                self.wf(),
                forall|j: int| 0 <= j < i ==> (#[trigger] self.functions@[j]).0@ != name@,
            decreases n - i,
        {
            if str_eq(self.functions[i].0.as_str(), name) {
                proof {
                    lemma_env_map_found(self.functions@, i as int);
                }
                return Some(&self.functions[i].1);
            }
            i += 1;
        }
        proof {
            lemma_env_map_absent(self.functions@, name@);
        }
        None
    }
}

/// `target` occurs among the names in `names`.
pub open spec fn name_in_list(names: Seq<String>, target: Seq<char>) -> bool {
    exists|j: int| 0 <= j < names.len() && (#[trigger] names[j])@ == target
}

/// The import requests this catalog entry: either everything was asked for,
/// or its name is among the requested ones.
pub open spec fn selected(id: NativeId, names_opt: Option<Vec<String>>) -> bool {
    match names_opt {
        Option::None => true,
        Option::Some(names) => name_in_list(names@, native_name(id)),
    }
}

/// The bindings after materializing the selected entries, in catalog order,
/// over an existing environment.
pub open spec fn apply_entries(
    env: Map<Seq<char>, Value>,
    entries: Seq<NativeId>,
    names_opt: Option<Vec<String>>,
) -> Map<Seq<char>, Value>
    decreases entries.len(),
{
    if entries.len() == 0 {
        env
    } else {
        let prev = apply_entries(env, entries.drop_last(), names_opt);
        let id = entries.last();
        if selected(id, names_opt) {
            prev.insert(native_name(id), Value::NativeFunction(id))
        } else {
            prev
        }
    }
}

/// The bindings after resolving one import request: a request that names no
/// native module binds nothing, and is not an error.
pub open spec fn apply_import(
    env: Map<Seq<char>, Value>,
    m: (String, Option<Vec<String>>),
) -> Map<Seq<char>, Value> {
    match module_of_key(m.0@) {
        Option::Some(mid) => apply_entries(env, module_natives(mid), m.1),
        Option::None => env,
    }
}

/// The bindings after resolving a list of import requests in order.
pub open spec fn apply_imports(
    env: Map<Seq<char>, Value>,
    mods: Seq<(String, Option<Vec<String>>)>,
) -> Map<Seq<char>, Value>
    decreases mods.len(),
{
    if mods.len() == 0 {
        env
    } else {
        apply_import(apply_imports(env, mods.drop_last()), mods.last())
    }
}

/// Whether the entry `id` is requested by `names_opt`.
fn requested(names_opt: &Option<Vec<String>>, id: NativeId) -> (r: bool)
    ensures
        r == selected(id, *names_opt),
{
    match names_opt {
        Option::None => true,
        Option::Some(names) => {
            let target = native_name_str(id);
            let n = names.len();
            let mut j: usize = 0;
            while j < n
                invariant
                    n == names@.len(),
                    j <= n,
                    *names_opt == Option::Some(*names),
                    target@ == native_name(id),
                    forall|t: int| 0 <= t < j ==> (#[trigger] names@[t])@ != native_name(id),
                decreases n - j,
            {
                if str_eq(names[j].as_str(), target) {
                    proof {
                        assert(names@[j as int]@ == native_name(id));
                        assert(name_in_list(names@, native_name(id)));
                    }
                    return true;
                }
                j += 1;
            }
            false
        },
    }
}

/// Resolves each import request against the catalog and installs the
/// resulting bindings into `env`, in order, later bindings replacing
/// earlier ones of the same name.  A request for an unknown module binds
/// nothing; a requested name absent from its module is silently ignored.
pub fn register_modules(env: &mut RuntimeEnvironment, modules: &[(String, Option<Vec<String>>)])
    requires
        old(env).wf(),
    ensures
        final(env).wf(),
        final(env)@ == apply_imports(old(env)@, modules@),
{
    let n = modules.len();
    let mut mi: usize = 0;
    while mi < n
        invariant
            n == modules@.len(),
            mi <= n,
            env.wf(),
            env@ == apply_imports(old(env)@, modules@.take(mi as int)),
        decreases n - mi,
    {
        let entry = &modules[mi];
        let ghost env_start = env@;
        match module_for_key(entry.0.as_str()) {
            Some(m) => {
                let ids = module_natives_vec(m);
                let idn = ids.len();
                let mut k: usize = 0;
                while k < idn
                    invariant
                        idn == ids@.len(),
                        k <= idn,
                        ids@ == module_natives(m),
                        env.wf(),
                        env@ == apply_entries(env_start, ids@.take(k as int), entry.1),
                    decreases idn - k,
                {
                    let id = ids[k];
                    if requested(&entry.1, id) {
                        env.define_function(
                            String::from_str(native_name_str(id)),
                            Value::NativeFunction(id),
                        );
                    }
                    proof {
                        assert(ids@.take(k + 1).drop_last() =~= ids@.take(k as int));
                        assert(ids@.take(k + 1).last() == ids@[k as int]);
                    }
                    k += 1;
                }
                proof {
                    assert(ids@.take(idn as int) =~= ids@);
                    assert(env@ == apply_import(env_start, modules@[mi as int]));
                }
            },
            None => {
                proof {
                    assert(env@ == apply_import(env_start, modules@[mi as int]));
                }
            },
        }
        proof {
            assert(modules@.take(mi + 1).drop_last() =~= modules@.take(mi as int));
            assert(modules@.take(mi + 1).last() == modules@[mi as int]);
        }
        mi += 1;
    }
    proof {
        assert(modules@.take(n as int) =~= modules@);
    }
}

/// Some selected entry of `entries` carries the name `k`.
pub open spec fn binds_name(
    entries: Seq<NativeId>,
    names_opt: Option<Vec<String>>,
    k: Seq<char>,
) -> bool {
    exists|j: int|
        0 <= j < entries.len() && selected(#[trigger] entries[j], names_opt) && native_name(
            entries[j],
        ) == k
}

/// Law: materializing a module's entries binds exactly the names of the
/// selected entries over what was bound before -- no more, no fewer.
pub proof fn lemma_registration_binds_exactly(
    env: Map<Seq<char>, Value>,
    entries: Seq<NativeId>,
    names_opt: Option<Vec<String>>,
    k: Seq<char>,
)
    ensures
        apply_entries(env, entries, names_opt).dom().contains(k) <==> (env.dom().contains(k)
            || binds_name(entries, names_opt, k)),
    decreases entries.len(),
{
    if entries.len() > 0 {
        let prefix = entries.drop_last();
        let last = entries.last();
        lemma_registration_binds_exactly(env, prefix, names_opt, k);
        assert(entries[entries.len() - 1] == last);
        if selected(last, names_opt) && native_name(last) == k {
            assert(apply_entries(env, entries, names_opt).dom().contains(k));
            assert(binds_name(entries, names_opt, k));
        } else {
            if binds_name(entries, names_opt, k) {
                let j = choose|j: int|
                    0 <= j < entries.len() && selected(#[trigger] entries[j], names_opt)
                        && native_name(entries[j]) == k;
                assert(j != entries.len() - 1);
                assert(prefix[j] == entries[j]);
                assert(binds_name(prefix, names_opt, k));
            }
            if binds_name(prefix, names_opt, k) {
                let j = choose|j: int|
                    0 <= j < prefix.len() && selected(#[trigger] prefix[j], names_opt)
                        && native_name(prefix[j]) == k;
                assert(entries[j] == prefix[j]);
                assert(selected(entries[j], names_opt) && native_name(entries[j]) == k);
                assert(binds_name(entries, names_opt, k));
            }
        }
    }
}

/// Some entry of `entries` carries the name `k`.
pub open spec fn catalog_has_name(entries: Seq<NativeId>, k: Seq<char>) -> bool {
    exists|j: int| 0 <= j < entries.len() && native_name(#[trigger] entries[j]) == k
}

/// Law (signature/registration parity): importing a module without an
/// explicit name list binds exactly the names of the module's catalog
/// entries, which are exactly the names the signature exporter lists.
pub proof fn lemma_import_all_parity(env: Map<Seq<char>, Value>, m: ModuleId, k: Seq<char>)
    ensures
        apply_entries(env, module_natives(m), Option::None).dom().contains(k) <==> (
        env.dom().contains(k) || catalog_has_name(module_natives(m), k)),
{
    let entries = module_natives(m);
    lemma_registration_binds_exactly(env, entries, Option::None, k);
    if binds_name(entries, Option::None, k) {
        let j = choose|j: int|
            0 <= j < entries.len() && selected(#[trigger] entries[j], Option::None)
                && native_name(entries[j]) == k;
        assert(native_name(entries[j]) == k);
        assert(catalog_has_name(entries, k));
    }
    if catalog_has_name(entries, k) {
        let j = choose|j: int| 0 <= j < entries.len() && native_name(#[trigger] entries[j]) == k;
        assert(selected(entries[j], Option::None));
        assert(binds_name(entries, Option::None, k));
    }
}

/// Law (selective import): importing an explicit name list binds exactly
/// the module's catalog names among the requested ones, and nothing else;
/// a requested name the catalog lacks is ignored.
pub proof fn lemma_subset_import_binds_exactly(
    env: Map<Seq<char>, Value>,
    m: ModuleId,
    names: Vec<String>,
    k: Seq<char>,
)
    ensures
        apply_entries(env, module_natives(m), Option::Some(names)).dom().contains(k) <==> (
        env.dom().contains(k) || (catalog_has_name(module_natives(m), k) && name_in_list(
            names@,
            k,
        ))),
{
    let entries = module_natives(m);
    let no = Option::Some(names);
    lemma_registration_binds_exactly(env, entries, no, k);
    if binds_name(entries, no, k) {
        let j = choose|j: int|
            0 <= j < entries.len() && selected(#[trigger] entries[j], no) && native_name(
                entries[j],
            ) == k;
        assert(catalog_has_name(entries, k));
        assert(name_in_list(names@, native_name(entries[j])));
    }
    if catalog_has_name(entries, k) && name_in_list(names@, k) {
        let j = choose|j: int| 0 <= j < entries.len() && native_name(#[trigger] entries[j]) == k;
        assert(selected(entries[j], no));
        assert(binds_name(entries, no, k));
    }
}

/// Law: a request naming no native module binds nothing, and is not an
/// error; resolution is left to whatever handles user modules.
pub proof fn lemma_unknown_module_binds_nothing(
    env: Map<Seq<char>, Value>,
    m: (String, Option<Vec<String>>),
)
    requires
        module_of_key(m.0@) is None,
    ensures
        apply_import(env, m) == env,
{
}

/// Law: re-binding a name fully replaces the prior binding, it does not
/// merge; binding twice leaves what the second binding installed.
pub proof fn lemma_rebind_replaces(env: Map<Seq<char>, Value>, k: Seq<char>, v1: Value, v2: Value)
    ensures
        env.insert(k, v1).insert(k, v2) == env.insert(k, v2),
{
    assert(env.insert(k, v1).insert(k, v2) =~= env.insert(k, v2));
}

} // verus!
