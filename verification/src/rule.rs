//! The rule registry: community rules registered by name and found again by
//! name. The registry is generic over what a rule is, so the boundary layer
//! can keep its callbacks (and share the registry behind a lock) while the
//! registry's own behaviour is proved here.

use vstd::prelude::*;
use crate::err::{err, ErrorSlot, RTORCH_API_E_PARAM, RTORCH_API_E_RT, RTORCH_API_OK};

verus! {

/// A registry of rules of type `F`, each under a distinct non-empty name.
pub struct RuleRegistry<F> {
    entries: Vec<(String, F)>,
}

impl<F> RuleRegistry<F> {
    #[verifier::type_invariant]
    spec fn names_distinct_and_non_empty(self) -> bool {
        &&& forall|i: int| 0 <= i < self.entries@.len() ==> #[trigger] self.entries@[i].0@.len() > 0
        &&& forall|i: int, j: int|
            0 <= i < self.entries@.len() && 0 <= j < self.entries@.len() && i != j
                ==> #[trigger] self.entries@[i].0@ != #[trigger] self.entries@[j].0@
    }

    /// The index of the entry named `k`.
    closed spec fn index_of(self, k: Seq<char>) -> int {
        choose|i: int| 0 <= i < self.entries@.len() && self.entries@[i].0@ == k
    }

    /// Some entry is named `k`.
    closed spec fn has(self, k: Seq<char>) -> bool {
        exists|i: int| 0 <= i < self.entries@.len() && self.entries@[i].0@ == k
    }

    /// An empty registry.
    pub fn new() -> (reg: Self)
        ensures
            reg@ == Map::<Seq<char>, F>::empty(),
    {
        let reg = RuleRegistry { entries: Vec::new() };
        assert(reg@ =~= Map::<Seq<char>, F>::empty());
        reg
    }

    /// Where the entry named `name` stands, if any.
    fn find(&self, name: &String) -> (idx: Option<usize>)
        ensures
            idx matches Some(i) ==> i < self.entries@.len() && self.entries@[i as int].0@ == name@,
            idx is None ==> !self.has(name@),
    {
        let n = self.entries.len();
        let mut i: usize = 0;
        while i < n
            invariant
                n == self.entries@.len(),
                i <= n,
                forall|j: int| 0 <= j < i ==> self.entries@[j].0@ != name@,
            decreases n - i,
        {
            if self.entries[i].0 == *name {
                return Some(i);
            }
            i = i + 1;
        }
        None
    }
}

impl<F> View for RuleRegistry<F> {
    type V = Map<Seq<char>, F>;

    /// Each registered name, mapped to its rule.
    closed spec fn view(&self) -> Map<Seq<char>, F> {
        Map::new(|k: Seq<char>| self.has(k), |k: Seq<char>| self.entries@[self.index_of(k)].1)
    }
}

/// The entry at `i` is the one the view finds under its name.
proof fn lemma_view_at<F>(reg: &RuleRegistry<F>, i: int)
    requires
        reg.names_distinct_and_non_empty(),
        0 <= i < reg.entries@.len(),
    ensures
        reg@.contains_key(reg.entries@[i].0@),
        reg@[reg.entries@[i].0@] == reg.entries@[i].1,
{
    let k = reg.entries@[i].0@;
    assert(reg.has(k));
    let j = reg.index_of(k);
    assert(reg.entries@[j].0@ == k);
    assert(i == j);
}

/// The registry as [`register`] leaves it: unchanged for an empty name, and
/// otherwise with `name` mapped to `f`.
pub open spec fn registered<F>(before: Map<Seq<char>, F>, name: Seq<char>, f: F) -> Map<Seq<char>, F> {
    if name.len() == 0 {
        before
    } else {
        before.insert(name, f)
    }
}

/// Register (or replace) the rule `f` under `name`; an empty name is refused
/// with `E_PARAM` and leaves the registry as it was.
pub fn register<F>(reg: &mut RuleRegistry<F>, name: &str, f: F, slot: &mut ErrorSlot) -> (rc: i32)
    ensures
        name@.len() == 0 ==> {
            &&& rc == RTORCH_API_E_PARAM
            &&& final(reg)@ == old(reg)@
            &&& final(slot)@ == "rtorch_api: rule name is empty"@
        },
        name@.len() > 0 ==> {
            &&& rc == RTORCH_API_OK
            &&& final(reg)@ == old(reg)@.insert(name@, f)
            &&& final(slot)@ == old(slot)@
        },
        final(reg)@ == registered(old(reg)@, name@, f),
{
    if name.is_empty() {
        return err(slot, RTORCH_API_E_PARAM, "rtorch_api: rule name is empty");
    }
    proof {
        use_type_invariant(&*reg);
    }
    let key = name.to_owned();
    let ghost before = *reg;
    let found = reg.find(&key);
    let mut entries: Vec<(String, F)> = Vec::new();
    std::mem::swap(&mut entries, &mut reg.entries);
    match found {
        Some(i) => {
            entries.set(i, (key, f));
            reg.entries = entries;
            proof {
                use_type_invariant(&*reg);
                assert forall|k: Seq<char>| #[trigger] reg@.contains_key(k) == old(reg)@.insert(name@, f).contains_key(k) by {
                    if reg.has(k) {
                        let j = choose|j: int| 0 <= j < reg.entries@.len() && reg.entries@[j].0@ == k;
                        assert(before.entries@[j].0@ == k);
                    }
                    if before.has(k) {
                        let j = choose|j: int| 0 <= j < before.entries@.len() && before.entries@[j].0@ == k;
                        assert(reg.entries@[j].0@ == k);
                    }
                    if k == name@ {
                        assert(reg.entries@[i as int].0@ == k);
                    }
                }
                assert forall|k: Seq<char>| reg@.contains_key(k) implies #[trigger] reg@[k] == old(reg)@.insert(name@, f)[k] by {
                    let j = choose|j: int| 0 <= j < reg.entries@.len() && reg.entries@[j].0@ == k;
                    lemma_view_at(reg, j);
                    if j != i {
                        lemma_view_at(&before, j);
                    }
                }
                assert(reg@ =~= old(reg)@.insert(name@, f));
            }
        },
        None => {
            entries.push((key, f));
            proof {
                assert(entries@[before.entries@.len() as int].0@ == name@);
            }
            reg.entries = entries;
            proof {
                use_type_invariant(&*reg);
                let n = before.entries@.len();
                assert(reg.entries@[n as int].0@ == name@);
                assert forall|k: Seq<char>| #[trigger] reg@.contains_key(k) == old(reg)@.insert(name@, f).contains_key(k) by {
                    if reg.has(k) && k != name@ {
                        let j = choose|j: int| 0 <= j < reg.entries@.len() && reg.entries@[j].0@ == k;
                        assert(j < n);
                        assert(before.entries@[j].0@ == k);
                    }
                    if before.has(k) {
                        let j = choose|j: int| 0 <= j < before.entries@.len() && before.entries@[j].0@ == k;
                        assert(reg.entries@[j].0@ == k);
                    }
                }
                assert forall|k: Seq<char>| reg@.contains_key(k) implies #[trigger] reg@[k] == old(reg)@.insert(name@, f)[k] by {
                    let j = choose|j: int| 0 <= j < reg.entries@.len() && reg.entries@[j].0@ == k;
                    lemma_view_at(reg, j);
                    if j != n {
                        lemma_view_at(&before, j);
                    }
                }
                assert(reg@ =~= old(reg)@.insert(name@, f));
            }
        },
    }
    RTORCH_API_OK
}

/// Whether a rule is registered under `name`.
pub fn rule_exists<F>(reg: &RuleRegistry<F>, name: &str) -> (found: bool)
    ensures
        found == reg@.contains_key(name@),
        name@.len() == 0 ==> !found,
{
    proof {
        use_type_invariant(reg);
    }
    let key = name.to_owned();
    match reg.find(&key) {
        Some(i) => {
            proof {
                use_type_invariant(reg);
                lemma_view_at(reg, i as int);
            }
            true
        },
        None => false,
    }
}

/// The rule registered under `name`. A name with no rule is answered with
/// `E_PARAM` and the message `"rtorch_api: rule not found: {name}"`.
pub fn lookup<'a, F>(reg: &'a RuleRegistry<F>, name: &str, slot: &mut ErrorSlot) -> (rule: Result<&'a F, i32>)
    ensures
        reg@.contains_key(name@) ==> rule == Ok::<&F, i32>(&reg@[name@]) && final(slot)@ == old(slot)@,
        !reg@.contains_key(name@) ==> rule == Err::<&F, i32>(RTORCH_API_E_PARAM) && final(slot)@
            == "rtorch_api: rule not found: "@ + name@,
{
    let key = name.to_owned();
    match reg.find(&key) {
        Some(i) => {
            proof {
                use_type_invariant(reg);
                lemma_view_at(reg, i as int);
            }
            Ok(&reg.entries[i].1)
        },
        None => {
            let mut msg = String::from_str("rtorch_api: rule not found: ");
            msg.append(name);
            Err(err(slot, RTORCH_API_E_PARAM, msg.as_str()))
        },
    }
}

/// Remove every rule.
pub fn clear<F>(reg: &mut RuleRegistry<F>)
    ensures
        final(reg)@ == Map::<Seq<char>, F>::empty(),
{
    reg.entries = Vec::new();
    assert(reg@ =~= Map::<Seq<char>, F>::empty());
}

/// The answer when the lock around a shared registry was poisoned by a panic.
pub fn registry_poisoned(slot: &mut ErrorSlot) -> (rc: i32)
    ensures
        rc == RTORCH_API_E_RT,
        final(slot)@ == "rtorch_api: rule registry lock poisoned"@,
{
    err(slot, RTORCH_API_E_RT, "rtorch_api: rule registry lock poisoned")
}

/// A rule registered under a non-empty name is found again under that name,
/// and it is the rule that was registered.
pub proof fn registered_rule_is_found<F>(before: Map<Seq<char>, F>, name: Seq<char>, f: F)
    requires
        name.len() > 0,
    ensures
        registered(before, name, f).contains_key(name),
        registered(before, name, f)[name] == f,
{
}

/// Registering under a name that is already taken replaces the old rule:
/// registering `f` then `g` under one name is registering `g` alone.
pub proof fn register_replaces<F>(before: Map<Seq<char>, F>, name: Seq<char>, f: F, g: F)
    ensures
        registered(registered(before, name, f), name, g) == registered(before, name, g),
{
    if name.len() > 0 {
        assert(before.insert(name, f).insert(name, g) =~= before.insert(name, g));
    }
}

/// Registering one name leaves every other name as it was: what was found
/// under it is still found, and what was missing is still missing.
pub proof fn register_keeps_other_names<F>(before: Map<Seq<char>, F>, name: Seq<char>, f: F, other: Seq<char>)
    requires
        other != name,
    ensures
        registered(before, name, f).contains_key(other) == before.contains_key(other),
        before.contains_key(other) ==> registered(before, name, f)[other] == before[other],
{
}

/// `rtorch_api_register_rule`: `name` is `None` for a null pointer, which is
/// refused; otherwise the rule is registered as by [`register`].
pub fn rtorch_api_register_rule<F>(reg: &mut RuleRegistry<F>, name: Option<&str>, f: F, slot: &mut ErrorSlot)
    -> (rc: i32)
    ensures
        name is None ==> {
            &&& rc == RTORCH_API_E_PARAM
            &&& final(reg)@ == old(reg)@
            &&& final(slot)@ == "rtorch_api: null rule name"@
        },
        name matches Some(n) ==> n@.len() == 0 ==> {
            &&& rc == RTORCH_API_E_PARAM
            &&& final(reg)@ == old(reg)@
            &&& final(slot)@ == "rtorch_api: rule name is empty"@
        },
        name matches Some(n) ==> n@.len() > 0 ==> {
            &&& rc == RTORCH_API_OK
            &&& final(reg)@ == old(reg)@.insert(n@, f)
            &&& final(slot)@ == old(slot)@
        },
{
    match name {
        Some(n) => register(reg, n, f, slot),
        None => err(slot, RTORCH_API_E_PARAM, "rtorch_api: null rule name"),
    }
}

/// `rtorch_api_rule_exists`: 1 when a rule is registered under `name`, else 0
/// (also for a null name).
pub fn rtorch_api_rule_exists<F>(reg: &RuleRegistry<F>, name: Option<&str>) -> (b: i32)
    ensures
        b == (if name matches Some(n) && reg@.contains_key(n@) { 1int } else { 0int }),
{
    match name {
        Some(n) => if rule_exists(reg, n) { 1 } else { 0 },
        None => 0,
    }
}

/// The name checks `rtorch_api_register_rule` makes before it touches the
/// registry: a null name (`None`) and an empty name are refused with
/// `E_PARAM`, each with its own message.
pub fn register_rule_name_check(name: Option<&str>, slot: &mut ErrorSlot) -> (rc: i32)
    ensures
        name is None ==> rc == RTORCH_API_E_PARAM && final(slot)@ == "rtorch_api: null rule name"@,
        name matches Some(n) ==> if n@.len() == 0 {
            rc == RTORCH_API_E_PARAM && final(slot)@ == "rtorch_api: rule name is empty"@
        } else {
            rc == RTORCH_API_OK && final(slot)@ == old(slot)@
        },
{
    match name {
        None => err(slot, RTORCH_API_E_PARAM, "rtorch_api: null rule name"),
        Some(n) => if n.is_empty() {
            err(slot, RTORCH_API_E_PARAM, "rtorch_api: rule name is empty")
        } else {
            RTORCH_API_OK
        },
    }
}

/// The argument checks `rtorch_api_run_rule` makes before it touches the
/// registry: a null name or output blob, then a null input array that claims
/// `n_in > 0` entries, are refused with `E_PARAM`.
pub fn run_rule_args_check(
    name_present: bool,
    out_present: bool,
    in_blobs_present: bool,
    n_in: usize,
    slot: &mut ErrorSlot,
) -> (rc: i32)
    ensures
        !name_present || !out_present ==> rc == RTORCH_API_E_PARAM && final(slot)@
            == "rtorch_api: null name/out"@,
        name_present && out_present ==> if !in_blobs_present && n_in > 0 {
            rc == RTORCH_API_E_PARAM && final(slot)@ == "rtorch_api: null in_blobs"@
        } else {
            rc == RTORCH_API_OK && final(slot)@ == old(slot)@
        },
{
    if !name_present || !out_present {
        return err(slot, RTORCH_API_E_PARAM, "rtorch_api: null name/out");
    }
    if !in_blobs_present && n_in > 0 {
        return err(slot, RTORCH_API_E_PARAM, "rtorch_api: null in_blobs");
    }
    RTORCH_API_OK
}

/// The userdata a C rule is called with: the one given at run time, or, when
/// none was given (a null pointer), the one bound when the rule was registered.
pub fn effective_userdata<T>(run_time: Option<T>, registered: T) -> (u: T)
    ensures
        u == match run_time {
            Some(x) => x,
            None => registered,
        },
{
    match run_time {
        Some(x) => x,
        None => registered,
    }
}

/// What `rtorch_api_run_rule` does before the callback runs: refuse a null
/// name or output blob, refuse a null input array that claims `n_in > 0`
/// entries, and find the rule. `Ok` holds the rule to invoke (its return code
/// is then the entry point's); `Err` holds the code to return at once.
pub fn rtorch_api_run_rule<'a, F>(
    reg: &'a RuleRegistry<F>,
    name: Option<&str>,
    out_present: bool,
    in_blobs_present: bool,
    n_in: usize,
    slot: &mut ErrorSlot,
) -> (rule: Result<&'a F, i32>)
    ensures
        name is None || !out_present ==> rule == Err::<&F, i32>(RTORCH_API_E_PARAM) && final(slot)@
            == "rtorch_api: null name/out"@,
        name matches Some(n) ==> out_present ==> {
            if !in_blobs_present && n_in > 0 {
                rule == Err::<&F, i32>(RTORCH_API_E_PARAM) && final(slot)@ == "rtorch_api: null in_blobs"@
            } else if reg@.contains_key(n@) {
                rule == Ok::<&F, i32>(&reg@[n@]) && final(slot)@ == old(slot)@
            } else {
                rule == Err::<&F, i32>(RTORCH_API_E_PARAM) && final(slot)@
                    == "rtorch_api: rule not found: "@ + n@
            }
        },
{
    let rc = run_rule_args_check(name.is_some(), out_present, in_blobs_present, n_in, slot);
    if rc != RTORCH_API_OK {
        return Err(rc);
    }
    match name {
        Some(n) => lookup(reg, n, slot),
        None => Err(RTORCH_API_E_PARAM),
    }
}

/// One step of a registry's history: `Some((name, rule))` is a call of
/// [`register`], `None` a call of [`clear`].
pub open spec fn history_step<F>(m: Map<Seq<char>, F>, op: Option<(Seq<char>, F)>) -> Map<Seq<char>, F> {
    match op {
        Some((name, f)) => registered(m, name, f),
        None => Map::empty(),
    }
}

/// The registry after the calls `ops`, in order, starting from `start`.
pub open spec fn replay<F>(start: Map<Seq<char>, F>, ops: Seq<Option<(Seq<char>, F)>>) -> Map<Seq<char>, F>
    decreases ops.len(),
{
    if ops.len() == 0 {
        start
    } else {
        history_step(replay(start, ops.drop_last()), ops.last())
    }
}

/// The `i`-th call registered `name` (a non-empty name) and no `clear` came
/// after it.
pub open spec fn registered_since_clear<F>(ops: Seq<Option<(Seq<char>, F)>>, name: Seq<char>, i: int) -> bool {
    &&& 0 <= i < ops.len()
    &&& ops[i] matches Some(op) && op.0 == name
    &&& name.len() > 0
    &&& forall|j: int| i < j < ops.len() ==> (#[trigger] ops[j]) is Some
}

/// No call after the `i`-th registered `name` again.
pub open spec fn last_registration_of<F>(ops: Seq<Option<(Seq<char>, F)>>, name: Seq<char>, i: int) -> bool {
    forall|j: int| i < j < ops.len() ==> !((#[trigger] ops[j]) matches Some(op) && op.0 == name)
}

/// Over any history of calls on a registry that starts empty, a name is
/// registered exactly when some call registered it (under a non-empty name)
/// after the latest `clear`; and the rule found under it is the one the last
/// such call registered.
pub proof fn registry_history<F>(ops: Seq<Option<(Seq<char>, F)>>, name: Seq<char>)
    ensures
        replay(Map::empty(), ops).contains_key(name) <==> exists|i: int| registered_since_clear(ops, name, i),
        replay(Map::empty(), ops).contains_key(name) ==> exists|i: int|
            registered_since_clear(ops, name, i) && last_registration_of(ops, name, i)
                && replay(Map::empty(), ops)[name] == ops[i].unwrap().1,
    decreases ops.len(),
{
    if ops.len() == 0 {
        return;
    }
    let prev = ops.drop_last();
    let n = ops.len() - 1;
    registry_history(prev, name);
    let m = replay(Map::<Seq<char>, F>::empty(), prev);
    assert(replay(Map::<Seq<char>, F>::empty(), ops) == history_step(m, ops.last()));
    match ops.last() {
        None => {
            assert(replay(Map::<Seq<char>, F>::empty(), ops) =~= Map::<Seq<char>, F>::empty());
            assert forall|i: int| !registered_since_clear(ops, name, i) by {
                if registered_since_clear(ops, name, i) {
                    if i < n {
                        assert(ops[n] is Some);
                    }
                }
            }
        },
        Some(op) => {
            // a witness for the shorter history is one for the longer
            assert forall|i: int| registered_since_clear(prev, name, i) implies registered_since_clear(ops, name, i) by {
                assert forall|j: int| i < j < ops.len() implies (#[trigger] ops[j]) is Some by {
                    if j < n {
                        assert(ops[j] == prev[j]);
                    }
                }
                assert(ops[i] == prev[i]);
            }
            if op.0 == name && name.len() > 0 {
                assert(registered_since_clear(ops, name, n));
                assert(last_registration_of(ops, name, n));
            } else {
                // the last call did not register `name`
                assert forall|i: int| registered_since_clear(ops, name, i) implies registered_since_clear(prev, name, i) by {
                    assert(i < n);
                    assert(prev[i] == ops[i]);
                    assert forall|j: int| i < j < prev.len() implies (#[trigger] prev[j]) is Some by {
                        assert(prev[j] == ops[j]);
                    }
                }
                if replay(Map::<Seq<char>, F>::empty(), ops).contains_key(name) {
                    assert(m.contains_key(name));
                    let i = choose|i: int| registered_since_clear(prev, name, i) && last_registration_of(prev, name, i)
                        && m[name] == prev[i].unwrap().1;
                    assert(registered_since_clear(ops, name, i));
                    assert forall|j: int| i < j < ops.len() implies !((#[trigger] ops[j]) matches Some(o) && o.0 == name) by {
                        if j < n {
                            assert(ops[j] == prev[j]);
                        }
                    }
                    assert(ops[i] == prev[i]);
                }
            }
        },
    }
}

} // verus!
