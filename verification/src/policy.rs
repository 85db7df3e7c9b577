//! Policy documents: per-column rules, function-level predicates and table
//! verifiers, with their JSON form. Maps are kept as key-ordered entry
//! lists; serialisation is pinned exactly, and the column rewrite used on
//! the read path is specified for every rule.

use vstd::prelude::*;

use crate::json::json_string;
use crate::json::json_string_array;
use crate::json::parse_opt_string;
use crate::json::parse_string;
use crate::json::parse_string_array;
use crate::json::skip_value;
use crate::json::skip_ws;
use crate::json::JsonError;
use crate::util::str_eq;

verus! {

/// One per-column rule: the column it speaks of, the function policies it
/// requires and rejects, and an optional table verifier.
#[derive(Debug)]
pub struct PolicyRule {
    pub column_name: String,
    pub requires_ids: Vec<String>,
    pub rejects: Vec<String>,
    pub table_verifier: Option<String>,
}

/// One function-level policy: the function it governs and its reject and
/// require predicates.
#[derive(Debug)]
pub struct FunctionPolicy {
    pub func: String,
    pub reject: String,
    pub require: String,
}

/// One table verifier: the verifying module and its argument.
#[derive(Debug)]
pub struct TableVerifier {
    pub verifier: String,
    pub arg: String,
}

/// A whole policy document. The three entry lists stand for the maps of
/// the JSON form: readers and the parser keep their keys unique
/// (insert-with-overwrite), and the serialiser emits them in list order.
#[derive(Debug)]
pub struct PolicyFile {
    pub rules: Vec<(String, PolicyRule)>,
    pub func_policy: Vec<(String, FunctionPolicy)>,
    pub default_table_verifier: String,
    pub table_verifiers: Vec<(String, TableVerifier)>,
}

/// Mathematical shape of a rule.
pub ghost struct RuleV {
    pub column_name: Seq<char>,
    pub requires_ids: Seq<Seq<char>>,
    pub rejects: Seq<Seq<char>>,
    pub table_verifier: Option<Seq<char>>,
}

/// Mathematical shape of a function policy.
pub ghost struct FuncV {
    pub func: Seq<char>,
    pub reject: Seq<char>,
    pub require: Seq<char>,
}

/// Mathematical shape of a table verifier.
pub ghost struct TvV {
    pub verifier: Seq<char>,
    pub arg: Seq<char>,
}

/// Mathematical shape of a whole document.
pub ghost struct PolicyV {
    pub rules: Seq<(Seq<char>, RuleV)>,
    pub func_policy: Seq<(Seq<char>, FuncV)>,
    pub default_table_verifier: Seq<char>,
    pub table_verifiers: Seq<(Seq<char>, TvV)>,
}

impl View for PolicyRule {
    type V = RuleV;

    open spec fn view(&self) -> RuleV {
        RuleV {
            column_name: self.column_name@,
            requires_ids: self.requires_ids.deep_view(),
            rejects: self.rejects.deep_view(),
            table_verifier: match self.table_verifier {
                Some(s) => Some(s@),
                None => None,
            },
        }
    }
}

impl View for FunctionPolicy {
    type V = FuncV;

    open spec fn view(&self) -> FuncV {
        FuncV { func: self.func@, reject: self.reject@, require: self.require@ }
    }
}

impl View for TableVerifier {
    type V = TvV;

    open spec fn view(&self) -> TvV {
        TvV { verifier: self.verifier@, arg: self.arg@ }
    }
}

/// The view of a rules entry list.
pub open spec fn rules_view(v: Seq<(String, PolicyRule)>) -> Seq<(Seq<char>, RuleV)> {
    Seq::new(v.len(), |i: int| (v[i].0@, v[i].1@))
}

/// The view of a function-policy entry list.
pub open spec fn funcs_view(v: Seq<(String, FunctionPolicy)>) -> Seq<(Seq<char>, FuncV)> {
    Seq::new(v.len(), |i: int| (v[i].0@, v[i].1@))
}

/// The view of a table-verifier entry list.
pub open spec fn tvs_view(v: Seq<(String, TableVerifier)>) -> Seq<(Seq<char>, TvV)> {
    Seq::new(v.len(), |i: int| (v[i].0@, v[i].1@))
}

impl View for PolicyFile {
    type V = PolicyV;

    open spec fn view(&self) -> PolicyV {
        PolicyV {
            rules: rules_view(self.rules@),
            func_policy: funcs_view(self.func_policy@),
            default_table_verifier: self.default_table_verifier@,
            table_verifiers: tvs_view(self.table_verifiers@),
        }
    }
}

/// One entry inserted into an ordered map: an entry already holding the
/// key is overwritten in place, a fresh key is appended at the end.
pub open spec fn upsert_entry<V>(acc: Seq<(Seq<char>, V)>, kv: (Seq<char>, V)) -> Seq<
    (Seq<char>, V),
>
    decreases acc.len(),
{
    if acc.len() == 0 {
        seq![kv]
    } else if acc[0].0 == kv.0 {
        seq![kv] + acc.skip(1)
    } else {
        seq![acc[0]] + upsert_entry(acc.skip(1), kv)
    }
}

/// Entries inserted left to right, each overwriting its key.
pub open spec fn upsert_entries<V>(acc: Seq<(Seq<char>, V)>, items: Seq<(Seq<char>, V)>) -> Seq<
    (Seq<char>, V),
>
    decreases items.len(),
{
    if items.len() == 0 {
        acc
    } else {
        upsert_entries(upsert_entry(acc, items[0]), items.skip(1))
    }
}

/// Inserting a batch and then one more entry is inserting the lengthened
/// batch.
pub proof fn lemma_upsert_entries_snoc<V>(
    acc: Seq<(Seq<char>, V)>,
    items: Seq<(Seq<char>, V)>,
    kv: (Seq<char>, V),
)
    ensures
        upsert_entries(acc, items.push(kv)) == upsert_entry(upsert_entries(acc, items), kv),
    decreases items.len(),
{
    if items.len() == 0 {
        assert(items.push(kv)[0] == kv);
        assert(items.push(kv).skip(1) =~= Seq::<(Seq<char>, V)>::empty());
        assert(upsert_entries(acc, items.push(kv)) == upsert_entries(
            upsert_entry(acc, kv),
            items.push(kv).skip(1),
        ));
        assert(upsert_entries(upsert_entry(acc, kv), Seq::<(Seq<char>, V)>::empty())
            == upsert_entry(acc, kv));
        assert(upsert_entries(acc, items) == acc);
    } else {
        assert(items.push(kv)[0] == items[0]);
        assert(items.push(kv).skip(1) =~= items.skip(1).push(kv));
        assert(upsert_entries(acc, items.push(kv)) == upsert_entries(
            upsert_entry(acc, items[0]),
            items.skip(1).push(kv),
        ));
        lemma_upsert_entries_snoc(upsert_entry(acc, items[0]), items.skip(1), kv);
        assert(upsert_entries(acc, items) == upsert_entries(
            upsert_entry(acc, items[0]),
            items.skip(1),
        ));
    }
}

/// Inserting a key that sits at position `j` overwrites it in place.
pub proof fn lemma_upsert_entry_found<V>(acc: Seq<(Seq<char>, V)>, kv: (Seq<char>, V), j: int)
    requires
        0 <= j < acc.len(),
        acc[j].0 == kv.0,
        forall|i: int| 0 <= i < j ==> (#[trigger] acc[i]).0 != kv.0,
    ensures
        upsert_entry(acc, kv) == acc.update(j, kv),
    decreases j,
{
    if j == 0 {
        assert(seq![kv] + acc.skip(1) =~= acc.update(0, kv));
    } else {
        assert(acc[0].0 != kv.0);
        assert(forall|i: int|
            0 <= i < j - 1 ==> (#[trigger] acc.skip(1)[i]).0 == acc[i + 1].0 && acc[i + 1].0
                != kv.0);
        lemma_upsert_entry_found(acc.skip(1), kv, j - 1);
        assert(seq![acc[0]] + acc.skip(1).update(j - 1, kv) =~= acc.update(j, kv));
    }
}

/// Inserting a key that is absent appends the entry.
pub proof fn lemma_upsert_entry_absent<V>(acc: Seq<(Seq<char>, V)>, kv: (Seq<char>, V))
    requires
        forall|i: int| 0 <= i < acc.len() ==> (#[trigger] acc[i]).0 != kv.0,
    ensures
        upsert_entry(acc, kv) == acc.push(kv),
    decreases acc.len(),
{
    if acc.len() == 0 {
        assert(seq![kv] =~= acc.push(kv));
    } else {
        assert(forall|i: int|
            0 <= i < acc.skip(1).len() ==> (#[trigger] acc.skip(1)[i]).0 == acc[i + 1].0 && acc[
                i + 1
            ].0 != kv.0);
        lemma_upsert_entry_absent(acc.skip(1), kv);
        assert(seq![acc[0]] + acc.skip(1).push(kv) =~= acc.push(kv));
    }
}

/// The rules entries that speak of column `c`, in stored order.
pub open spec fn rules_with_column(rules: Seq<(Seq<char>, RuleV)>, c: Seq<char>) -> Seq<
    (Seq<char>, RuleV),
> {
    rules.filter(|kv: (Seq<char>, RuleV)| kv.1.column_name == c)
}

/// The function-policy entries that govern function `f`, in stored order.
pub open spec fn funcs_with_name(fps: Seq<(Seq<char>, FuncV)>, f: Seq<char>) -> Seq<
    (Seq<char>, FuncV),
> {
    fps.filter(|kv: (Seq<char>, FuncV)| kv.1.func == f)
}

/// Copy of a string vector.
fn copy_strings(v: &Vec<String>) -> (r: Vec<String>)
    ensures
        r@ == v@,
{
    let mut out: Vec<String> = Vec::new();
    let mut i: usize = 0;
    while i < v.len()
        invariant
            0 <= i <= v@.len(),
            out@ == v@.subrange(0, i as int),
        decreases v@.len() - i,
    {
        out.push(v[i].clone());
        proof {
            assert(v@.subrange(0, i as int + 1) =~= v@.subrange(0, i as int).push(v@[i as int]));
        }
        i = i + 1;
    }
    proof {
        assert(v@.subrange(0, v@.len() as int) =~= v@);
    }
    out
}

fn copy_opt_string(o: &Option<String>) -> (r: Option<String>)
    ensures
        r == *o,
{
    match o {
        Some(s) => Some(s.clone()),
        None => None,
    }
}

fn clone_rule(r: &PolicyRule) -> (out: PolicyRule)
    ensures
        out@ == r@,
{
    let out = PolicyRule {
        column_name: r.column_name.clone(),
        requires_ids: copy_strings(&r.requires_ids),
        rejects: copy_strings(&r.rejects),
        table_verifier: copy_opt_string(&r.table_verifier),
    };
    proof {
        assert(out.requires_ids.deep_view() =~= r.requires_ids.deep_view());
        assert(out.rejects.deep_view() =~= r.rejects.deep_view());
    }
    out
}

fn clone_func(f: &FunctionPolicy) -> (out: FunctionPolicy)
    ensures
        out@ == f@,
{
    FunctionPolicy { func: f.func.clone(), reject: f.reject.clone(), require: f.require.clone() }
}

impl PolicyFile {
    /// An empty policy document.
    pub fn new() -> (r: Self)
        ensures
            r@.rules =~= Seq::<(Seq<char>, RuleV)>::empty(),
            r@.func_policy =~= Seq::<(Seq<char>, FuncV)>::empty(),
            r@.table_verifiers =~= Seq::<(Seq<char>, TvV)>::empty(),
            r@.default_table_verifier == Seq::<char>::empty(),
    {
        proof {
            reveal_strlit("");
        }
        PolicyFile {
            rules: Vec::new(),
            func_policy: Vec::new(),
            default_table_verifier: "".to_owned(),
            table_verifiers: Vec::new(),
        }
    }

    /// Every rule whose column name is `column_name`, with its id, in
    /// stored order.
    pub fn get_rules_from_column_name(&self, column_name: &str) -> (r: Vec<(String, PolicyRule)>)
        ensures
            rules_view(r@) == rules_with_column(self@.rules, column_name@),
    {
        let mut out: Vec<(String, PolicyRule)> = Vec::new();
        let mut i: usize = 0;
        while i < self.rules.len()
            invariant
                0 <= i <= self.rules@.len(),
                rules_view(out@) == rules_with_column(
                    rules_view(self.rules@).subrange(0, i as int),
                    column_name@,
                ),
            decreases self.rules@.len() - i,
        {
            let ghost whole = rules_view(self.rules@);
            proof {
                reveal_with_fuel(Seq::<(Seq<char>, RuleV)>::filter, 2);
                let t = whole.subrange(0, i as int + 1);
                assert(t.drop_last() =~= whole.subrange(0, i as int));
                assert(t.last() == whole[i as int]);
            }
            let kv = &self.rules[i];
            if str_eq(kv.1.column_name.as_str(), column_name) {
                let ghost pre = out@;
                out.push((kv.0.clone(), clone_rule(&kv.1)));
                proof {
                    assert(rules_view(out@) =~= rules_view(pre).push(whole[i as int]));
                }
            } else {
                proof {
                    assert(!(whole[i as int].1.column_name == column_name@));
                }
            }
            i = i + 1;
        }
        proof {
            assert(rules_view(self.rules@).subrange(0, self.rules@.len() as int) =~= rules_view(
                self.rules@,
            ));
        }
        out
    }

    /// Every function policy whose function is `func_name`, with its id,
    /// collected by insert-with-overwrite: of entries sharing an id, the
    /// last one stands alone.
    pub fn get_function_policy(&self, func_name: &str) -> (r: Vec<(String, FunctionPolicy)>)
        ensures
            funcs_view(r@) == upsert_entries(
                Seq::<(Seq<char>, FuncV)>::empty(),
                funcs_with_name(self@.func_policy, func_name@),
            ),
    {
        let mut res: Vec<(String, FunctionPolicy)> = Vec::new();
        proof {
            assert(funcs_view(res@) =~= Seq::<(Seq<char>, FuncV)>::empty());
        }
        self.update_function_policy(&mut res, func_name);
        res
    }

    /// Inserts every function policy whose function is `func_name` into the
    /// accumulator, overwriting an entry that already holds the same id.
    pub fn update_function_policy(&self, acc: &mut Vec<(String, FunctionPolicy)>, func_name: &str)
        ensures
            funcs_view(final(acc)@) == upsert_entries(
                funcs_view(old(acc)@),
                funcs_with_name(self@.func_policy, func_name@),
            ),
    {
        let mut i: usize = 0;
        while i < self.func_policy.len()
            invariant
                0 <= i <= self.func_policy@.len(),
                funcs_view(acc@) == upsert_entries(
                    funcs_view(old(acc)@),
                    funcs_with_name(
                        funcs_view(self.func_policy@).subrange(0, i as int),
                        func_name@,
                    ),
                ),
            decreases self.func_policy@.len() - i,
        {
            let ghost whole = funcs_view(self.func_policy@);
            let ghost base = funcs_view(old(acc)@);
            proof {
                reveal_with_fuel(Seq::<(Seq<char>, FuncV)>::filter, 2);
                let t = whole.subrange(0, i as int + 1);
                assert(t.drop_last() =~= whole.subrange(0, i as int));
                assert(t.last() == whole[i as int]);
            }
            let kv = &self.func_policy[i];
            if str_eq(kv.1.func.as_str(), func_name) {
                let ghost before = funcs_view(acc@);
                upsert_func(acc, kv.0.clone(), clone_func(&kv.1));
                proof {
                    let fpre = funcs_with_name(whole.subrange(0, i as int), func_name@);
                    assert(funcs_with_name(whole.subrange(0, i as int + 1), func_name@)
                        =~= fpre.push(whole[i as int]));
                    assert(funcs_view(acc@) == upsert_entry(before, whole[i as int]));
                    lemma_upsert_entries_snoc(base, fpre, whole[i as int]);
                }
            } else {
                proof {
                    assert(!(whole[i as int].1.func == func_name@));
                }
            }
            i = i + 1;
        }
        proof {
            assert(funcs_view(self.func_policy@).subrange(0, self.func_policy@.len() as int)
                =~= funcs_view(self.func_policy@));
        }
    }

    /// Rewrites every rule to speak of `column_name`, leaving everything
    /// else — ids, predicates, verifiers — exactly as it was.
    pub fn rewrite_column_names(&mut self, column_name: &str)
        ensures
            final(self)@.rules.len() == old(self)@.rules.len(),
            forall|i: int|
                0 <= i < old(self)@.rules.len() ==> {
                    &&& (#[trigger] final(self)@.rules[i]).0 == old(self)@.rules[i].0
                    &&& final(self)@.rules[i].1.column_name == column_name@
                    &&& final(self)@.rules[i].1.requires_ids == old(self)@.rules[i].1.requires_ids
                    &&& final(self)@.rules[i].1.rejects == old(self)@.rules[i].1.rejects
                    &&& final(self)@.rules[i].1.table_verifier == old(
                        self,
                    )@.rules[i].1.table_verifier
                },
            final(self)@.func_policy == old(self)@.func_policy,
            final(self)@.table_verifiers == old(self)@.table_verifiers,
            final(self)@.default_table_verifier == old(self)@.default_table_verifier,
    {
        let n = self.rules.len();
        let mut rewritten: Vec<(String, PolicyRule)> = Vec::new();
        let mut i: usize = 0;
        while i < n
            invariant
                0 <= i <= n,
                n == self.rules@.len(),
                self.rules@ == old(self).rules@,
                self.func_policy@ == old(self).func_policy@,
                self.table_verifiers@ == old(self).table_verifiers@,
                self.default_table_verifier == old(self).default_table_verifier,
                rewritten@.len() == i as int,
                forall|j: int|
                    0 <= j < i ==> {
                        &&& (#[trigger] rules_view(rewritten@)[j]).0 == rules_view(
                            old(self).rules@,
                        )[j].0
                        &&& rules_view(rewritten@)[j].1.column_name == column_name@
                        &&& rules_view(rewritten@)[j].1.requires_ids == rules_view(
                            old(self).rules@,
                        )[j].1.requires_ids
                        &&& rules_view(rewritten@)[j].1.rejects == rules_view(
                            old(self).rules@,
                        )[j].1.rejects
                        &&& rules_view(rewritten@)[j].1.table_verifier == rules_view(
                            old(self).rules@,
                        )[j].1.table_verifier
                    },
            decreases n - i,
        {
            let kv = &self.rules[i];
            let ghost src = kv.1@;
            let rule = PolicyRule {
                column_name: column_name.to_owned(),
                requires_ids: copy_strings(&kv.1.requires_ids),
                rejects: copy_strings(&kv.1.rejects),
                table_verifier: copy_opt_string(&kv.1.table_verifier),
            };
            proof {
                assert(rule.requires_ids.deep_view() =~= kv.1.requires_ids.deep_view());
                assert(rule.rejects.deep_view() =~= kv.1.rejects.deep_view());
            }
            let ghost pre = rewritten@;
            rewritten.push((kv.0.clone(), rule));
            proof {
                assert(rules_view(rewritten@) =~= rules_view(pre).push(
                    (
                        self.rules@[i as int].0@,
                        RuleV {
                            column_name: column_name@,
                            requires_ids: src.requires_ids,
                            rejects: src.rejects,
                            table_verifier: src.table_verifier,
                        },
                    ),
                ));
            }
            i = i + 1;
        }
        self.rules = rewritten;
    }
}

/// `null` or a JSON string literal, for an optional field.
pub open spec fn opt_string_json(o: Option<Seq<char>>) -> Seq<char> {
    match o {
        Some(s) => json_string(s),
        None => "null"@,
    }
}

/// The JSON object of one rule, fields in stored order.
pub open spec fn rule_json(r: RuleV) -> Seq<char> {
    "{\"column_name\":"@ + json_string(r.column_name) + ",\"requires\":"@ + json_string_array(
        r.requires_ids,
    ) + ",\"rejects\":"@ + json_string_array(r.rejects) + ",\"table_verifier\":"@
        + opt_string_json(r.table_verifier) + "}"@
}

/// The JSON object of one function policy.
pub open spec fn func_json(f: FuncV) -> Seq<char> {
    "{\"func\":"@ + json_string(f.func) + ",\"reject\":"@ + json_string(f.reject)
        + ",\"require\":"@ + json_string(f.require) + "}"@
}

/// The JSON object of one table verifier.
pub open spec fn tv_json(t: TvV) -> Seq<char> {
    "{\"verifier\":"@ + json_string(t.verifier) + ",\"arg\":"@ + json_string(t.arg) + "}"@
}

/// The members of the rules map, comma-separated.
pub open spec fn rules_items(entries: Seq<(Seq<char>, RuleV)>) -> Seq<char>
    decreases entries.len(),
{
    if entries.len() == 0 {
        Seq::empty()
    } else if entries.len() == 1 {
        json_string(entries[0].0) + ":"@ + rule_json(entries[0].1)
    } else {
        rules_items(entries.drop_last()) + ","@ + json_string(entries.last().0) + ":"@ + rule_json(
            entries.last().1,
        )
    }
}

/// The members of the function-policy map, comma-separated.
pub open spec fn func_items(entries: Seq<(Seq<char>, FuncV)>) -> Seq<char>
    decreases entries.len(),
{
    if entries.len() == 0 {
        Seq::empty()
    } else if entries.len() == 1 {
        json_string(entries[0].0) + ":"@ + func_json(entries[0].1)
    } else {
        func_items(entries.drop_last()) + ","@ + json_string(entries.last().0) + ":"@ + func_json(
            entries.last().1,
        )
    }
}

/// The members of the table-verifiers map, comma-separated.
pub open spec fn tv_items(entries: Seq<(Seq<char>, TvV)>) -> Seq<char>
    decreases entries.len(),
{
    if entries.len() == 0 {
        Seq::empty()
    } else if entries.len() == 1 {
        json_string(entries[0].0) + ":"@ + tv_json(entries[0].1)
    } else {
        tv_items(entries.drop_last()) + ","@ + json_string(entries.last().0) + ":"@ + tv_json(
            entries.last().1,
        )
    }
}

/// The exact JSON text of a policy document.
pub open spec fn policy_json(p: PolicyV) -> Seq<char> {
    "{\"rules\":{"@ + rules_items(p.rules) + "},\"func_policy\":{"@ + func_items(p.func_policy)
        + "},\"default_table_verifier\":"@ + json_string(p.default_table_verifier)
        + ",\"table_verifiers\":{"@ + tv_items(p.table_verifiers) + "}}"@
}

fn append_opt_string(out: &mut String, o: &Option<String>)
    ensures
        final(out)@ == old(out)@ + opt_string_json(
            match *o {
                Some(s) => Some(s@),
                None => None,
            },
        ),
{
    match o {
        Some(s) => {
            crate::json::append_json_string(out, s.as_str());
        },
        None => {
            out.append("null");
        },
    }
}

fn append_rule(out: &mut String, r: &PolicyRule)
    ensures
        final(out)@ == old(out)@ + rule_json(r@),
{
    out.append("{\"column_name\":");
    crate::json::append_json_string(out, r.column_name.as_str());
    out.append(",\"requires\":");
    crate::json::append_json_string_array(out, &r.requires_ids);
    out.append(",\"rejects\":");
    crate::json::append_json_string_array(out, &r.rejects);
    out.append(",\"table_verifier\":");
    append_opt_string(out, &r.table_verifier);
    out.append("}");
    proof {
        assert(out@ =~= old(out)@ + rule_json(r@));
    }
}

fn append_func(out: &mut String, f: &FunctionPolicy)
    ensures
        final(out)@ == old(out)@ + func_json(f@),
{
    out.append("{\"func\":");
    crate::json::append_json_string(out, f.func.as_str());
    out.append(",\"reject\":");
    crate::json::append_json_string(out, f.reject.as_str());
    out.append(",\"require\":");
    crate::json::append_json_string(out, f.require.as_str());
    out.append("}");
    proof {
        assert(out@ =~= old(out)@ + func_json(f@));
    }
}

fn append_tv(out: &mut String, t: &TableVerifier)
    ensures
        final(out)@ == old(out)@ + tv_json(t@),
{
    out.append("{\"verifier\":");
    crate::json::append_json_string(out, t.verifier.as_str());
    out.append(",\"arg\":");
    crate::json::append_json_string(out, t.arg.as_str());
    out.append("}");
    proof {
        assert(out@ =~= old(out)@ + tv_json(t@));
    }
}

impl PolicyFile {
    /// The exact JSON text of this document.
    #[verifier::rlimit(100)]
    pub fn to_json(self: &Self) -> (r: String)
        ensures
            r@ == policy_json(self@),
    {
        let mut out = "{\"rules\":{".to_owned();
        let mut i: usize = 0;
        while i < self.rules.len()
            invariant
                0 <= i <= self.rules@.len(),
                out@ == "{\"rules\":{"@ + rules_items(
                    rules_view(self.rules@).subrange(0, i as int),
                ),
            decreases self.rules@.len() - i,
        {
            let ghost whole = rules_view(self.rules@);
            proof {
                let t = whole.subrange(0, i as int + 1);
                assert(t.drop_last() =~= whole.subrange(0, i as int));
                assert(t.last() == whole[i as int]);
            }
            if i > 0 {
                out.append(",");
            }
            crate::json::append_json_string(&mut out, self.rules[i].0.as_str());
            out.append(":");
            append_rule(&mut out, &self.rules[i].1);
            proof {
                assert(out@ =~= "{\"rules\":{"@ + rules_items(
                    rules_view(self.rules@).subrange(0, i as int + 1),
                ));
            }
            i = i + 1;
        }
        proof {
            assert(rules_view(self.rules@).subrange(0, self.rules@.len() as int) =~= rules_view(
                self.rules@,
            ));
        }
        out.append("},\"func_policy\":{");
        let ghost mid1 = out@;
        let mut i: usize = 0;
        while i < self.func_policy.len()
            invariant
                0 <= i <= self.func_policy@.len(),
                out@ == mid1 + func_items(funcs_view(self.func_policy@).subrange(0, i as int)),
            decreases self.func_policy@.len() - i,
        {
            let ghost whole = funcs_view(self.func_policy@);
            proof {
                let t = whole.subrange(0, i as int + 1);
                assert(t.drop_last() =~= whole.subrange(0, i as int));
                assert(t.last() == whole[i as int]);
            }
            if i > 0 {
                out.append(",");
            }
            crate::json::append_json_string(&mut out, self.func_policy[i].0.as_str());
            out.append(":");
            append_func(&mut out, &self.func_policy[i].1);
            proof {
                assert(out@ =~= mid1 + func_items(
                    funcs_view(self.func_policy@).subrange(0, i as int + 1),
                ));
            }
            i = i + 1;
        }
        proof {
            assert(funcs_view(self.func_policy@).subrange(0, self.func_policy@.len() as int)
                =~= funcs_view(self.func_policy@));
        }
        out.append("},\"default_table_verifier\":");
        crate::json::append_json_string(&mut out, self.default_table_verifier.as_str());
        out.append(",\"table_verifiers\":{");
        let ghost mid2 = out@;
        let mut i: usize = 0;
        while i < self.table_verifiers.len()
            invariant
                0 <= i <= self.table_verifiers@.len(),
                out@ == mid2 + tv_items(tvs_view(self.table_verifiers@).subrange(0, i as int)),
            decreases self.table_verifiers@.len() - i,
        {
            let ghost whole = tvs_view(self.table_verifiers@);
            proof {
                let t = whole.subrange(0, i as int + 1);
                assert(t.drop_last() =~= whole.subrange(0, i as int));
                assert(t.last() == whole[i as int]);
            }
            if i > 0 {
                out.append(",");
            }
            crate::json::append_json_string(&mut out, self.table_verifiers[i].0.as_str());
            out.append(":");
            append_tv(&mut out, &self.table_verifiers[i].1);
            proof {
                assert(out@ =~= mid2 + tv_items(
                    tvs_view(self.table_verifiers@).subrange(0, i as int + 1),
                ));
            }
            i = i + 1;
        }
        proof {
            assert(tvs_view(self.table_verifiers@).subrange(
                0,
                self.table_verifiers@.len() as int,
            ) =~= tvs_view(self.table_verifiers@));
        }
        out.append("}}");
        proof {
            assert(out@ =~= policy_json(self@));
        }
        out
    }
}

/// Inserts one entry, overwriting an entry with the same id in place.
fn upsert_rule(v: &mut Vec<(String, PolicyRule)>, key: String, val: PolicyRule) {
    let mut i: usize = 0;
    let n = v.len();
    while i < n
        invariant
            0 <= i <= n,
            n == v@.len(),
        decreases n - i,
    {
        if v[i].0.eq(&key) {
            let _ = v.remove(i);
            v.insert(i, (key, val));
            return ;
        }
        i = i + 1;
    }
    v.push((key, val));
}

/// Inserts one entry, overwriting an entry with the same id in place.
#[verifier::loop_isolation(false)]
fn upsert_func(v: &mut Vec<(String, FunctionPolicy)>, key: String, val: FunctionPolicy)
    ensures
        funcs_view(final(v)@) == upsert_entry(funcs_view(old(v)@), (key@, val@)),
{
    let ghost pre = funcs_view(v@);
    let ghost kv = (key@, val@);
    let mut i: usize = 0;
    let n = v.len();
    while i < n
        invariant
            0 <= i <= n,
            v@ == old(v)@,
            forall|k: int| 0 <= k < i ==> (#[trigger] pre[k]).0 != kv.0,
        decreases n - i,
    {
        if v[i].0.eq(&key) {
            proof {
                assert(pre[i as int].0 == kv.0);
            }
            let _ = v.remove(i);
            v.insert(i, (key, val));
            proof {
                assert(funcs_view(v@) =~= pre.update(i as int, kv));
                lemma_upsert_entry_found(pre, kv, i as int);
            }
            return ;
        }
        i = i + 1;
    }
    v.push((key, val));
    proof {
        assert(funcs_view(v@) =~= pre.push(kv));
        lemma_upsert_entry_absent(pre, kv);
    }
}

/// Inserts one entry, overwriting an entry with the same id in place.
fn upsert_tv(v: &mut Vec<(String, TableVerifier)>, key: String, val: TableVerifier) {
    let mut i: usize = 0;
    let n = v.len();
    while i < n
        invariant
            0 <= i <= n,
            n == v@.len(),
        decreases n - i,
    {
        if v[i].0.eq(&key) {
            let _ = v.remove(i);
            v.insert(i, (key, val));
            return ;
        }
        i = i + 1;
    }
    v.push((key, val));
}

/// Reads one rule object; `column_name`, `requires` and `rejects` are
/// required, `table_verifier` defaults to null, unknown members are skipped.
fn parse_rule(s: &str, pos: usize) -> (r: Result<(PolicyRule, usize), JsonError>)
    requires
        pos <= s@.len(),
    ensures
        r matches Ok(p) ==> pos < p.1 <= s@.len(),
{
    let n: usize = s.unicode_len();
    if pos >= n || s.get_char(pos) != '{' {
        return Err(JsonError);
    }
    let mut column_name: Option<String> = None;
    let mut requires_ids: Option<Vec<String>> = None;
    let mut rejects: Option<Vec<String>> = None;
    let mut table_verifier: Option<String> = None;
    let mut i: usize = skip_ws(s, pos + 1);
    if i < n && s.get_char(i) == '}' {
        i = i + 1;
    } else {
        loop
            invariant
                pos < i <= n,
                n == s@.len(),
            decreases n - i,
        {
            let (key, p) = parse_string(s, i)?;
            let q = skip_ws(s, p);
            if q >= n || s.get_char(q) != ':' {
                return Err(JsonError);
            }
            let v = skip_ws(s, q + 1);
            if v <= i {
                return Err(JsonError);
            }
            let after: usize;
            if str_eq(key.as_str(), "column_name") {
                let (val, p2) = parse_string(s, v)?;
                column_name = Some(val);
                after = p2;
            } else if str_eq(key.as_str(), "requires") {
                let (val, p2) = parse_string_array(s, v)?;
                requires_ids = Some(val);
                after = p2;
            } else if str_eq(key.as_str(), "rejects") {
                let (val, p2) = parse_string_array(s, v)?;
                rejects = Some(val);
                after = p2;
            } else if str_eq(key.as_str(), "table_verifier") {
                let (val, p2) = parse_opt_string(s, v)?;
                table_verifier = val;
                after = p2;
            } else {
                after = skip_value(s, v)?;
            }
            let q2 = skip_ws(s, after);
            if q2 >= n {
                return Err(JsonError);
            }
            let c2 = s.get_char(q2);
            if c2 == '}' {
                i = q2 + 1;
                break ;
            }
            if c2 != ',' {
                return Err(JsonError);
            }
            let next = skip_ws(s, q2 + 1);
            if next <= i {
                return Err(JsonError);
            }
            i = next;
        }
    }
    let column_name = match column_name {
        Some(v) => v,
        None => {
            return Err(JsonError);
        },
    };
    let requires_ids = match requires_ids {
        Some(v) => v,
        None => {
            return Err(JsonError);
        },
    };
    let rejects = match rejects {
        Some(v) => v,
        None => {
            return Err(JsonError);
        },
    };
    Ok((PolicyRule { column_name, requires_ids, rejects, table_verifier }, i))
}

/// Reads one function-policy object; `func` is required, `reject` and
/// `require` default to empty, unknown members are skipped.
fn parse_func(s: &str, pos: usize) -> (r: Result<(FunctionPolicy, usize), JsonError>)
    requires
        pos <= s@.len(),
    ensures
        r matches Ok(p) ==> pos < p.1 <= s@.len(),
{
    let n: usize = s.unicode_len();
    if pos >= n || s.get_char(pos) != '{' {
        return Err(JsonError);
    }
    let mut func: Option<String> = None;
    let mut reject: String = "".to_owned();
    let mut require: String = "".to_owned();
    let mut i: usize = skip_ws(s, pos + 1);
    if i < n && s.get_char(i) == '}' {
        i = i + 1;
    } else {
        loop
            invariant
                pos < i <= n,
                n == s@.len(),
            decreases n - i,
        {
            let (key, p) = parse_string(s, i)?;
            let q = skip_ws(s, p);
            if q >= n || s.get_char(q) != ':' {
                return Err(JsonError);
            }
            let v = skip_ws(s, q + 1);
            if v <= i {
                return Err(JsonError);
            }
            let after: usize;
            if str_eq(key.as_str(), "func") {
                let (val, p2) = parse_string(s, v)?;
                func = Some(val);
                after = p2;
            } else if str_eq(key.as_str(), "reject") {
                let (val, p2) = parse_string(s, v)?;
                reject = val;
                after = p2;
            } else if str_eq(key.as_str(), "require") {
                let (val, p2) = parse_string(s, v)?;
                require = val;
                after = p2;
            } else {
                after = skip_value(s, v)?;
            }
            let q2 = skip_ws(s, after);
            if q2 >= n {
                return Err(JsonError);
            }
            let c2 = s.get_char(q2);
            if c2 == '}' {
                i = q2 + 1;
                break ;
            }
            if c2 != ',' {
                return Err(JsonError);
            }
            let next = skip_ws(s, q2 + 1);
            if next <= i {
                return Err(JsonError);
            }
            i = next;
        }
    }
    let func = match func {
        Some(v) => v,
        None => {
            return Err(JsonError);
        },
    };
    Ok((FunctionPolicy { func, reject, require }, i))
}

/// Reads one table-verifier object; `verifier` is required, `arg` defaults
/// to empty, unknown members are skipped.
fn parse_tv(s: &str, pos: usize) -> (r: Result<(TableVerifier, usize), JsonError>)
    requires
        pos <= s@.len(),
    ensures
        r matches Ok(p) ==> pos < p.1 <= s@.len(),
{
    let n: usize = s.unicode_len();
    if pos >= n || s.get_char(pos) != '{' {
        return Err(JsonError);
    }
    let mut verifier: Option<String> = None;
    let mut arg: String = "".to_owned();
    let mut i: usize = skip_ws(s, pos + 1);
    if i < n && s.get_char(i) == '}' {
        i = i + 1;
    } else {
        loop
            invariant
                pos < i <= n,
                n == s@.len(),
            decreases n - i,
        {
            let (key, p) = parse_string(s, i)?;
            let q = skip_ws(s, p);
            if q >= n || s.get_char(q) != ':' {
                return Err(JsonError);
            }
            let v = skip_ws(s, q + 1);
            if v <= i {
                return Err(JsonError);
            }
            let after: usize;
            if str_eq(key.as_str(), "verifier") {
                let (val, p2) = parse_string(s, v)?;
                verifier = Some(val);
                after = p2;
            } else if str_eq(key.as_str(), "arg") {
                let (val, p2) = parse_string(s, v)?;
                arg = val;
                after = p2;
            } else {
                after = skip_value(s, v)?;
            }
            let q2 = skip_ws(s, after);
            if q2 >= n {
                return Err(JsonError);
            }
            let c2 = s.get_char(q2);
            if c2 == '}' {
                i = q2 + 1;
                break ;
            }
            if c2 != ',' {
                return Err(JsonError);
            }
            let next = skip_ws(s, q2 + 1);
            if next <= i {
                return Err(JsonError);
            }
            i = next;
        }
    }
    let verifier = match verifier {
        Some(v) => v,
        None => {
            return Err(JsonError);
        },
    };
    Ok((TableVerifier { verifier, arg }, i))
}

/// Reads the rules map; a repeated key replaces the earlier entry.
fn parse_rules_map(s: &str, pos: usize) -> (r: Result<
    (Vec<(String, PolicyRule)>, usize),
    JsonError,
>)
    requires
        pos <= s@.len(),
    ensures
        r matches Ok(p) ==> pos < p.1 <= s@.len(),
{
    let n: usize = s.unicode_len();
    if pos >= n || s.get_char(pos) != '{' {
        return Err(JsonError);
    }
    let mut out: Vec<(String, PolicyRule)> = Vec::new();
    let mut i: usize = skip_ws(s, pos + 1);
    if i < n && s.get_char(i) == '}' {
        return Ok((out, i + 1));
    }
    loop
        invariant
            pos < i <= n,
            n == s@.len(),
        decreases n - i,
    {
        let (key, p) = parse_string(s, i)?;
        let q = skip_ws(s, p);
        if q >= n || s.get_char(q) != ':' {
            return Err(JsonError);
        }
        let v = skip_ws(s, q + 1);
        if v <= i {
            return Err(JsonError);
        }
        let (val, after) = parse_rule(s, v)?;
        upsert_rule(&mut out, key, val);
        let q2 = skip_ws(s, after);
        if q2 >= n {
            return Err(JsonError);
        }
        let c2 = s.get_char(q2);
        if c2 == '}' {
            return Ok((out, q2 + 1));
        }
        if c2 != ',' {
            return Err(JsonError);
        }
        let next = skip_ws(s, q2 + 1);
        if next <= i {
            return Err(JsonError);
        }
        i = next;
    }
}

/// Reads the function-policy map; a repeated key replaces the earlier entry.
fn parse_func_map(s: &str, pos: usize) -> (r: Result<
    (Vec<(String, FunctionPolicy)>, usize),
    JsonError,
>)
    requires
        pos <= s@.len(),
    ensures
        r matches Ok(p) ==> pos < p.1 <= s@.len(),
{
    let n: usize = s.unicode_len();
    if pos >= n || s.get_char(pos) != '{' {
        return Err(JsonError);
    }
    let mut out: Vec<(String, FunctionPolicy)> = Vec::new();
    let mut i: usize = skip_ws(s, pos + 1);
    if i < n && s.get_char(i) == '}' {
        return Ok((out, i + 1));
    }
    loop
        invariant
            pos < i <= n,
            n == s@.len(),
        decreases n - i,
    {
        let (key, p) = parse_string(s, i)?;
        let q = skip_ws(s, p);
        if q >= n || s.get_char(q) != ':' {
            return Err(JsonError);
        }
        let v = skip_ws(s, q + 1);
        if v <= i {
            return Err(JsonError);
        }
        let (val, after) = parse_func(s, v)?;
        upsert_func(&mut out, key, val);
        let q2 = skip_ws(s, after);
        if q2 >= n {
            return Err(JsonError);
        }
        let c2 = s.get_char(q2);
        if c2 == '}' {
            return Ok((out, q2 + 1));
        }
        if c2 != ',' {
            return Err(JsonError);
        }
        let next = skip_ws(s, q2 + 1);
        if next <= i {
            return Err(JsonError);
        }
        i = next;
    }
}

/// Reads the table-verifiers map; a repeated key replaces the earlier entry.
fn parse_tv_map(s: &str, pos: usize) -> (r: Result<
    (Vec<(String, TableVerifier)>, usize),
    JsonError,
>)
    requires
        pos <= s@.len(),
    ensures
        r matches Ok(p) ==> pos < p.1 <= s@.len(),
{
    let n: usize = s.unicode_len();
    if pos >= n || s.get_char(pos) != '{' {
        return Err(JsonError);
    }
    let mut out: Vec<(String, TableVerifier)> = Vec::new();
    let mut i: usize = skip_ws(s, pos + 1);
    if i < n && s.get_char(i) == '}' {
        return Ok((out, i + 1));
    }
    loop
        invariant
            pos < i <= n,
            n == s@.len(),
        decreases n - i,
    {
        let (key, p) = parse_string(s, i)?;
        let q = skip_ws(s, p);
        if q >= n || s.get_char(q) != ':' {
            return Err(JsonError);
        }
        let v = skip_ws(s, q + 1);
        if v <= i {
            return Err(JsonError);
        }
        let (val, after) = parse_tv(s, v)?;
        upsert_tv(&mut out, key, val);
        let q2 = skip_ws(s, after);
        if q2 >= n {
            return Err(JsonError);
        }
        let c2 = s.get_char(q2);
        if c2 == '}' {
            return Ok((out, q2 + 1));
        }
        if c2 != ',' {
            return Err(JsonError);
        }
        let next = skip_ws(s, q2 + 1);
        if next <= i {
            return Err(JsonError);
        }
        i = next;
    }
}

/// The canonical text of a document holding nothing but a default table
/// verifier.
pub open spec fn default_only_json(v: Seq<char>) -> Seq<char> {
    "{\"default_table_verifier\":"@ + json_string(v) + "}"@
}

impl PolicyFile {
    /// Reads a document that holds exactly a default table verifier, in the
    /// canonical shape the writer emits; whatever is accepted is precisely
    /// that document, and every such document with a plain-text value is
    /// accepted.
    fn from_default_only(json: &str) -> (r: Result<PolicyFile, JsonError>)
        ensures
            r matches Ok(q) ==> json@ == default_only_json(q@.default_table_verifier)
                && q@.rules.len() == 0 && q@.func_policy.len() == 0 && q@.table_verifiers.len()
                == 0,
            forall|v: Seq<char>|
                json@ == #[trigger] default_only_json(v) && crate::json::plain_text(v) ==> (
                r matches Ok(q) && q@.default_table_verifier == v),
    {
        let n: usize = json.unicode_len();
        let ghost l1 = "{\"default_table_verifier\":"@;
        proof {
            reveal_strlit("{\"default_table_verifier\":");
            reveal_strlit("}");
        }
        let p1 = match crate::json::parse_exact(json, 0, "{\"default_table_verifier\":") {
            Ok(p) => p,
            Err(e) => {
                proof {
                    assert forall|v: Seq<char>|
                        json@ == default_only_json(v) && crate::json::plain_text(v) implies false by {
                        assert(json@.len() >= 26);
                        assert(json@.subrange(0, 26) =~= l1);
                    }
                }
                return Err(e);
            },
        };
        let (value, p2) = match parse_string(json, p1) {
            Ok(p) => p,
            Err(e) => {
                proof {
                    assert forall|v: Seq<char>|
                        json@ == default_only_json(v) && crate::json::plain_text(v) implies false by {
                        assert(json@.skip(26) =~= json_string(v) + "}"@);
                    }
                }
                return Err(e);
            },
        };
        let p3 = match crate::json::parse_exact(json, p2, "}") {
            Ok(p) => p,
            Err(e) => {
                proof {
                    assert forall|v: Seq<char>|
                        json@ == default_only_json(v) && crate::json::plain_text(v) implies false by {
                        assert(json@.skip(26) =~= json_string(v) + "}"@);
                        assert(p2 == 26 + json_string(v).len());
                        assert(json@.subrange(p2 as int, p2 + 1) =~= "}"@);
                    }
                }
                return Err(e);
            },
        };
        if p3 != n {
            proof {
                assert forall|v: Seq<char>|
                    json@ == default_only_json(v) && crate::json::plain_text(v) implies false by {
                    assert(json@.skip(26) =~= json_string(v) + "}"@);
                    assert(p2 == 26 + json_string(v).len());
                    assert(json@.len() == p2 + 1);
                }
            }
            return Err(JsonError);
        }
        let mut out = PolicyFile::new();
        out.default_table_verifier = value;
        proof {
            assert(json@ =~= default_only_json(out@.default_table_verifier));
            assert forall|v: Seq<char>|
                json@ == default_only_json(v) && crate::json::plain_text(v) implies out@.default_table_verifier == v by {
                assert(json@.skip(26) =~= json_string(v) + "}"@);
            }
        }
        Ok(out)
    }

    /// Reads a policy document from JSON text. Every member is optional:
    /// a missing map is empty and a missing default verifier is the empty
    /// string; unknown members are skipped; trailing text is refused. The
    /// empty document is always read back as the empty policy, and a
    /// canonical document holding only a plain-text default table verifier
    /// is always read back as exactly that.
    #[verifier::loop_isolation(false)]
    pub fn from_json(json: &str) -> (r: Result<PolicyFile, JsonError>)
        ensures
            json@ == "{}"@ ==> (r matches Ok(q) && q@.rules.len() == 0 && q@.func_policy.len()
                == 0 && q@.table_verifiers.len() == 0 && q@.default_table_verifier.len() == 0),
            forall|v: Seq<char>|
                json@ == #[trigger] default_only_json(v) && crate::json::plain_text(v) ==> (
                r matches Ok(q) && q@.default_table_verifier == v && q@.rules.len() == 0
                    && q@.func_policy.len() == 0 && q@.table_verifiers.len() == 0),
    {
        match Self::from_default_only(json) {
            Ok(q) => {
                proof {
                    reveal_strlit("{}");
                    reveal_strlit("{\"default_table_verifier\":");
                }
                return Ok(q);
            },
            Err(_) => {},
        }
        proof {
            reveal_strlit("{}");
            if json@ == "{}"@ {
                assert(json@.len() == 2);
                assert(json@[0] == '{');
                assert(json@[1] == '}');
                assert(!crate::json::is_ws(json@[0]));
                assert(!crate::json::is_ws(json@[1]));
            }
        }
        let n: usize = json.unicode_len();
        let mut out = PolicyFile::new();
        let start = skip_ws(json, 0);
        if start >= n || json.get_char(start) != '{' {
            return Err(JsonError);
        }
        let mut i: usize = skip_ws(json, start + 1);
        if i < n && json.get_char(i) == '}' {
            let fin = skip_ws(json, i + 1);
            if fin != n {
                return Err(JsonError);
            }
            return Ok(out);
        }
        loop
            invariant
                start < i <= n,
                n == json@.len(),
            decreases n - i,
        {
            let (key, p) = parse_string(json, i)?;
            let q = skip_ws(json, p);
            if q >= n || json.get_char(q) != ':' {
                return Err(JsonError);
            }
            let v = skip_ws(json, q + 1);
            if v <= i {
                return Err(JsonError);
            }
            let after: usize;
            if str_eq(key.as_str(), "rules") {
                let (val, p2) = parse_rules_map(json, v)?;
                out.rules = val;
                after = p2;
            } else if str_eq(key.as_str(), "func_policy") {
                let (val, p2) = parse_func_map(json, v)?;
                out.func_policy = val;
                after = p2;
            } else if str_eq(key.as_str(), "default_table_verifier") {
                let (val, p2) = parse_string(json, v)?;
                out.default_table_verifier = val;
                after = p2;
            } else if str_eq(key.as_str(), "table_verifiers") {
                let (val, p2) = parse_tv_map(json, v)?;
                out.table_verifiers = val;
                after = p2;
            } else {
                after = skip_value(json, v)?;
            }
            let q2 = skip_ws(json, after);
            if q2 >= n {
                return Err(JsonError);
            }
            let c2 = json.get_char(q2);
            if c2 == '}' {
                let fin = skip_ws(json, q2 + 1);
                if fin != n {
                    return Err(JsonError);
                }
                return Ok(out);
            }
            if c2 != ',' {
                return Err(JsonError);
            }
            let next = skip_ws(json, q2 + 1);
            if next <= i {
                return Err(JsonError);
            }
            i = next;
        }
    }
}

/// The shape of the default policy for a column: one rule that requires
/// the `mean_minimum_100` function policy, which demands at least one
/// hundred input values of a `mean`.
pub open spec fn default_policy_shape(p: PolicyV, column_name: Seq<char>) -> bool {
    &&& p.rules.len() == 1
    &&& p.rules[0].0 == "rule_mean_minimum_100"@
    &&& p.rules[0].1.column_name == column_name
    &&& p.rules[0].1.requires_ids.len() == 1
    &&& p.rules[0].1.requires_ids[0] == "mean_minimum_100"@
    &&& p.rules[0].1.rejects.len() == 0
    &&& p.rules[0].1.table_verifier is None
    &&& p.func_policy.len() == 1
    &&& p.func_policy[0].0 == "mean_minimum_100"@
    &&& p.func_policy[0].1.func == "mean"@
    &&& p.func_policy[0].1.reject == Seq::<char>::empty()
    &&& p.func_policy[0].1.require == "{\"checkpoint\": \"input\", \"minimum_count\": 100}"@
    &&& p.table_verifiers.len() == 0
    &&& p.default_table_verifier == Seq::<char>::empty()
}

/// The default policy handed out when none is stored.
pub fn default_policy_file(column_name: &str) -> (r: PolicyFile)
    ensures
        default_policy_shape(r@, column_name@),
{
    proof {
        reveal_strlit("");
    }
    let mut requires_ids: Vec<String> = Vec::new();
    requires_ids.push("mean_minimum_100".to_owned());
    proof {
        assert(requires_ids.deep_view() =~= seq!["mean_minimum_100"@]);
    }
    let rule = PolicyRule {
        column_name: column_name.to_owned(),
        requires_ids,
        rejects: Vec::new(),
        table_verifier: None,
    };
    let func = FunctionPolicy {
        func: "mean".to_owned(),
        reject: "".to_owned(),
        require: "{\"checkpoint\": \"input\", \"minimum_count\": 100}".to_owned(),
    };
    let mut out = PolicyFile::new();
    out.rules.push(("rule_mean_minimum_100".to_owned(), rule));
    out.func_policy.push(("mean_minimum_100".to_owned(), func));
    proof {
        assert(out@.rules.len() == 1);
        assert(out@.rules[0].0 == "rule_mean_minimum_100"@);
        assert(out@.rules[0].1.column_name == column_name@);
        assert(out@.rules[0].1.rejects =~= Seq::<Seq<char>>::empty());
        assert(out@.rules[0].1.requires_ids =~= seq!["mean_minimum_100"@]);
        assert(out@.rules[0].1.table_verifier is None);
        assert(out@.func_policy.len() == 1);
        assert(out@.func_policy[0].0 == "mean_minimum_100"@);
        assert(out@.func_policy[0].1.func == "mean"@);
        assert(out@.func_policy[0].1.reject == Seq::<char>::empty());
        assert(out@.func_policy[0].1.require == "{\"checkpoint\": \"input\", \"minimum_count\": 100}"@);
        assert(out@.table_verifiers.len() == 0);
        assert(out@.default_table_verifier == Seq::<char>::empty());
    }
    out
}

/// The default policy as JSON, as the dataset providers hand it out.
pub fn default_policy(column_name: &str) -> (r: String)
    ensures
        exists|p: PolicyV|
            #[trigger] policy_json(p) == r@ && default_policy_shape(p, column_name@),
{
    let p = default_policy_file(column_name);
    let json = p.to_json();
    proof {
        assert(policy_json(p@) == json@ && default_policy_shape(p@, column_name@));
    }
    json
}

} // verus!
