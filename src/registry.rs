use vstd::prelude::*;
use vstd::string::*;
use vstd::utf8::encode_utf8;

use crate::error::ScannrsError;
use crate::text::{bytes_equal, contains_nul, decimal_i32, has_nul, parse_i32};

verus! {

/// The kind of value a device option holds.
#[derive(Debug, Clone, Copy, PartialEq, Eq, Structural)]
pub enum ValueKind {
    Bool,
    Int,
    Fixed,
    String,
    Button,
    /// A heading that groups the options after it; it holds no value.
    Group,
}

/// The spelling of a kind in listings.
pub open spec fn kind_label(k: ValueKind) -> Seq<char> {
    match k {
        ValueKind::Bool => "Bool"@,
        ValueKind::Int => "Int"@,
        ValueKind::Fixed => "Fixed"@,
        ValueKind::String => "String"@,
        ValueKind::Button => "Button"@,
        ValueKind::Group => "Group"@,
    }
}

impl ValueKind {
    /// The spelling of this kind in listings.
    pub fn label(&self) -> (r: &'static str)
        ensures
            r@ == kind_label(*self),
    {
        proof {
            reveal_strlit("Bool");
            reveal_strlit("Int");
            reveal_strlit("Fixed");
            reveal_strlit("String");
            reveal_strlit("Button");
            reveal_strlit("Group");
        }
        match self {
            ValueKind::Bool => "Bool",
            ValueKind::Int => "Int",
            ValueKind::Fixed => "Fixed",
            ValueKind::String => "String",
            ValueKind::Button => "Button",
            ValueKind::Group => "Group",
        }
    }
}

/// One option as the device describes it.
#[derive(Debug, Clone)]
pub struct OptionDescriptor {
    /// The key the option is addressed by.
    pub name: Vec<u8>,
    /// The key as readable text.
    pub display_name: String,
    /// A human-readable title.
    pub title: String,
    pub kind: ValueKind,
}

/// A value to be written to an option.
#[derive(Debug, Clone, PartialEq, Eq)]
pub enum OptionValue {
    Int(i32),
    /// Text without any NUL character.
    Text(String),
}

/// The mathematical form of an [`OptionValue`].
pub enum ValueModel {
    Int(int),
    Text(Seq<char>),
}

impl View for OptionValue {
    type V = ValueModel;

    open spec fn view(&self) -> ValueModel {
        match self {
            OptionValue::Int(v) => ValueModel::Int(*v as int),
            OptionValue::Text(s) => ValueModel::Text(s@),
        }
    }
}

/// One write to perform: `value` into the option at `index` of the registry.
#[derive(Debug, Clone, PartialEq, Eq)]
pub struct OptionSetting {
    pub index: usize,
    pub value: OptionValue,
}

impl View for OptionSetting {
    type V = (int, ValueModel);

    open spec fn view(&self) -> (int, ValueModel) {
        (self.index as int, self.value@)
    }
}

/// The caller's assignments as key bytes and value text.
pub open spec fn assignments_model(a: Seq<(Vec<u8>, String)>) -> Seq<(Seq<u8>, Seq<char>)> {
    a.map_values(|p: (Vec<u8>, String)| (p.0@, p.1@))
}

/// The value assigned to `key`: that of the last entry with this key.
pub open spec fn last_assignment(a: Seq<(Seq<u8>, Seq<char>)>, key: Seq<u8>) -> Option<Seq<char>>
    decreases a.len(),
{
    if a.len() == 0 {
        None
    } else if a.last().0 == key {
        Some(a.last().1)
    } else {
        last_assignment(a.drop_last(), key)
    }
}

/// What becomes of one option given the text assigned to it.
pub enum Outcome {
    /// Nothing is written.
    Skip,
    /// This value is written.
    Write(ValueModel),
    /// The text does not fit the option's kind.
    Reject,
}

pub open spec fn outcome(kind: ValueKind, text: Option<Seq<char>>) -> Outcome {
    match text {
        None => Outcome::Skip,
        Some(t) => match kind {
            ValueKind::Int => match decimal_i32(t) {
                Some(v) => Outcome::Write(ValueModel::Int(v as int)),
                None => Outcome::Reject,
            },
            ValueKind::String => if has_nul(t) {
                Outcome::Reject
            } else {
                Outcome::Write(ValueModel::Text(t))
            },
            _ => Outcome::Skip,
        },
    }
}

/// The outcome for the option at `i` of the registry.
pub open spec fn outcome_at(
    opts: Seq<OptionDescriptor>,
    a: Seq<(Seq<u8>, Seq<char>)>,
    i: int,
) -> Outcome {
    outcome(opts[i].kind, last_assignment(a, opts[i].name@))
}

/// The writes for the first `n` options in registry order, or the position of
/// the first option whose assigned text is rejected.
pub open spec fn plan_upto(
    opts: Seq<OptionDescriptor>,
    a: Seq<(Seq<u8>, Seq<char>)>,
    n: int,
) -> Result<Seq<(int, ValueModel)>, int>
    decreases n,
{
    if n <= 0 {
        Ok(Seq::empty())
    } else {
        match plan_upto(opts, a, n - 1) {
            Err(i) => Err(i),
            Ok(p) => match outcome_at(opts, a, n - 1) {
                Outcome::Skip => Ok(p),
                Outcome::Write(v) => Ok(p.push((n - 1, v))),
                Outcome::Reject => Err(n - 1),
            },
        }
    }
}

/// The writes for a whole registry.
pub open spec fn plan_model(
    opts: Seq<OptionDescriptor>,
    a: Seq<(Seq<u8>, Seq<char>)>,
) -> Result<Seq<(int, ValueModel)>, int> {
    plan_upto(opts, a, opts.len() as int)
}

/// The error reported for a rejected text `t` assigned to option `o`.
pub open spec fn is_rejection(e: ScannrsError, o: OptionDescriptor, t: Seq<char>) -> bool {
    match o.kind {
        ValueKind::Int => e matches ScannrsError::InvalidValue { key, value } && key@ == o.name@
            && value@ == t,
        _ => e matches ScannrsError::NulInValue { key, value } && key@ == o.name@ && value@ == t,
    }
}

/// The text last assigned to `key`, if any.
pub fn assigned_value<'a>(assignments: &'a Vec<(Vec<u8>, String)>, key: &[u8]) -> (r: Option<&'a String>)
    ensures
        match r {
            Some(s) => last_assignment(assignments_model(assignments@), key@) == Some(s@),
            None => last_assignment(assignments_model(assignments@), key@) is None,
        },
{
    let ghost a = assignments_model(assignments@);
    let mut i: usize = assignments.len();
    assert(a.subrange(0, i as int) =~= a);
    while i > 0
        invariant
            i <= assignments@.len(),
            a == assignments_model(assignments@),
            last_assignment(a, key@) == last_assignment(a.subrange(0, i as int), key@),
        decreases i,
    {
        let j = i - 1;
        let ghost pre = a.subrange(0, i as int);
        assert(pre.drop_last() =~= a.subrange(0, j as int));
        if bytes_equal(assignments[j].0.as_slice(), key) {
            return Some(&assignments[j].1);
        }
        i = j;
    }
    assert(a.subrange(0, 0) =~= Seq::<(Seq<u8>, Seq<char>)>::empty());
    None
}

/// The writes that apply `assignments` to the options of a device, in the
/// device's own order. For each option the last assignment of its key
/// counts; keys that name no option are ignored; integer options take a
/// decimal `i32`, string options any text without NUL, other kinds are left
/// alone. The first option whose text does not fit gives the error.
pub fn plan_option_settings(
    options: &Vec<OptionDescriptor>,
    assignments: &Vec<(Vec<u8>, String)>,
) -> (r: Result<Vec<OptionSetting>, ScannrsError>)
    ensures
        match (r, plan_model(options@, assignments_model(assignments@))) {
            (Ok(p), Ok(m)) => p@.map_values(|s: OptionSetting| s@) == m,
            (Err(e), Err(i)) => 0 <= i < options@.len() && is_rejection(
                e,
                options@[i],
                last_assignment(assignments_model(assignments@), options@[i].name@).unwrap(),
            ),
            _ => false,
        },
{
    let ghost a = assignments_model(assignments@);
    let mut plan: Vec<OptionSetting> = Vec::new();
    let mut i: usize = 0;
    assert(plan@.map_values(|s: OptionSetting| s@) =~= Seq::<(int, ValueModel)>::empty());
    while i < options.len()
        invariant
            i <= options@.len(),
            a == assignments_model(assignments@),
            plan_upto(options@, a, i as int) == Ok::<_, int>(
                plan@.map_values(|s: OptionSetting| s@),
            ),
        decreases options@.len() - i,
    {
        let opt = &options[i];
        match assigned_value(assignments, opt.name.as_slice()) {
            None => {},
            Some(text) => {
                match opt.kind {
                    ValueKind::Int => match parse_i32(text.as_str()) {
                        Some(v) => {
                            let ghost before = plan@;
                            plan.push(OptionSetting { index: i, value: OptionValue::Int(v) });
                            assert(plan@.map_values(|s: OptionSetting| s@) =~= before.map_values(
                                |s: OptionSetting| s@,
                            ).push((i as int, ValueModel::Int(v as int))));
                        },
                        None => {
                            proof { lemma_plan_stays_failed(options@, a, i as int); }
                            return Err(
                                ScannrsError::InvalidValue {
                                    key: opt.name.clone(),
                                    value: text.clone(),
                                },
                            );
                        },
                    },
                    ValueKind::String => {
                        if contains_nul(text.as_str()) {
                            proof { lemma_plan_stays_failed(options@, a, i as int); }
                            return Err(
                                ScannrsError::NulInValue { key: opt.name.clone(), value: text.clone() },
                            );
                        }
                        let ghost before = plan@;
                        plan.push(OptionSetting { index: i, value: OptionValue::Text(text.clone()) });
                        assert(plan@.map_values(|s: OptionSetting| s@) =~= before.map_values(
                            |s: OptionSetting| s@,
                        ).push((i as int, ValueModel::Text(text@))));
                    },
                    _ => {},
                }
            },
        }
        i = i + 1;
    }
    Ok(plan)
}

/// Once the plan fails at option `i`, it fails there for every longer prefix.
proof fn lemma_plan_stays_failed(opts: Seq<OptionDescriptor>, a: Seq<(Seq<u8>, Seq<char>)>, i: int)
    requires
        0 <= i < opts.len(),
        plan_upto(opts, a, i) is Ok,
        outcome_at(opts, a, i) is Reject,
    ensures
        plan_model(opts, a) == Err::<Seq<(int, ValueModel)>, int>(i),
{
    lemma_failure_persists(opts, a, i, opts.len() as int);
}

proof fn lemma_failure_persists(
    opts: Seq<OptionDescriptor>,
    a: Seq<(Seq<u8>, Seq<char>)>,
    i: int,
    n: int,
)
    requires
        0 <= i < n,
        plan_upto(opts, a, i) is Ok,
        outcome_at(opts, a, i) is Reject,
    ensures
        plan_upto(opts, a, n) == Err::<Seq<(int, ValueModel)>, int>(i),
    decreases n - i,
{
    if n > i + 1 {
        lemma_failure_persists(opts, a, i, n - 1);
    }
}

/// Entries of equal key override one another: the value applied for a key is
/// the one of the last entry that carries it, whatever comes before.
pub proof fn lemma_last_write_wins(a: Seq<(Seq<u8>, Seq<char>)>, key: Seq<u8>, i: int)
    requires
        0 <= i < a.len(),
        a[i].0 == key,
        forall|j: int| i < j < a.len() ==> a[j].0 != key,
    ensures
        last_assignment(a, key) == Some(a[i].1),
    decreases a.len(),
{
    if i < a.len() - 1 {
        assert(a.last() == a[a.len() - 1]);
        lemma_last_write_wins(a.drop_last(), key, i);
    }
}

/// The option written for a key in a plan is the device's option of that
/// name, and its value comes from the last assignment of the key; the order
/// of the assignments matters only among entries of equal key.
pub proof fn lemma_plan_uses_last_assignment(
    opts: Seq<OptionDescriptor>,
    a: Seq<(Seq<u8>, Seq<char>)>,
    n: int,
    k: int,
)
    requires
        0 <= n <= opts.len(),
        plan_upto(opts, a, n) is Ok,
        0 <= k < plan_upto(opts, a, n)->Ok_0.len(),
    ensures
        ({
            let (idx, v) = plan_upto(opts, a, n)->Ok_0[k];
            0 <= idx < n && outcome_at(opts, a, idx) == Outcome::Write(v)
        }),
    decreases n,
{
    if n > 0 {
        let p = plan_upto(opts, a, n - 1)->Ok_0;
        if k < p.len() {
            lemma_plan_uses_last_assignment(opts, a, n - 1, k);
        }
    }
}

/// Whether option `o` is addressed by `key`.
pub open spec fn named(o: OptionDescriptor, key: Seq<u8>) -> bool {
    o.name@ == key
}

/// Finds the option named `option` on the device named `device`: the first
/// whose key is the option's UTF-8 bytes.
pub fn find_option(options: &Vec<OptionDescriptor>, option: &String, device: &String) -> (r: Result<
    usize,
    ScannrsError,
>)
    ensures
        match r {
            Ok(i) => i < options@.len() && named(options@[i as int], encode_utf8(option@))
                && forall|j: int| 0 <= j < i ==> !named(options@[j], encode_utf8(option@)),
            Err(e) => (forall|j: int|
                0 <= j < options@.len() ==> !named(options@[j], encode_utf8(option@)))
                && (e matches ScannrsError::OptionNotFound { name, option: o } && name@ == device@
                && o@ == option@),
        },
{
    let key = option.as_str().as_bytes_vec();
    let mut i: usize = 0;
    while i < options.len()
        invariant
            i <= options@.len(),
            key@ == encode_utf8(option@),
            forall|j: int| 0 <= j < i ==> !named(options@[j], encode_utf8(option@)),
        decreases options@.len() - i,
    {
        if bytes_equal(options[i].name.as_slice(), key.as_slice()) {
            return Ok(i);
        }
        i = i + 1;
    }
    Err(ScannrsError::OptionNotFound { name: device.clone(), option: option.clone() })
}

/// The text that lists one option: a group as a `[title]` heading, any other
/// option as a `# title` line followed by `name = Kind`.
pub open spec fn listing_text(o: OptionDescriptor) -> Seq<char> {
    if o.kind is Group {
        "["@ + o.title@ + "]"@
    } else {
        "# "@ + o.title@ + "\n"@ + o.display_name@ + " = "@ + kind_label(o.kind)
    }
}

/// The listing text of one option.
pub fn render_option(o: &OptionDescriptor) -> (r: String)
    ensures
        r@ == listing_text(*o),
{
    match o.kind {
        ValueKind::Group => {
            let mut s = String::from_str("[");
            s.append(o.title.as_str());
            s.append("]");
            s
        },
        _ => {
            let mut s = String::from_str("# ");
            s.append(o.title.as_str());
            s.append("\n");
            s.append(o.display_name.as_str());
            s.append(" = ");
            s.append(o.kind.label());
            s
        },
    }
}

/// The listing of every option, one entry each, in the device's order.
pub fn render_options(options: &Vec<OptionDescriptor>) -> (r: Vec<String>)
    ensures
        r@.len() == options@.len(),
        forall|i: int| 0 <= i < r@.len() ==> #[trigger] r@[i]@ == listing_text(options@[i]),
{
    let mut out: Vec<String> = Vec::new();
    let mut i: usize = 0;
    while i < options.len()
        invariant
            i <= options@.len(),
            out@.len() == i,
            forall|j: int| 0 <= j < i ==> #[trigger] out@[j]@ == listing_text(options@[j]),
        decreases options@.len() - i,
    {
        out.push(render_option(&options[i]));
        i = i + 1;
    }
    out
}

} // verus!
