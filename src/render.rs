//! Rendering the generated source text of a builder or a consumer.
//!
//! Every piece of text is stated as a spec function over the field names and
//! types; the executable renderers produce exactly that text.
use vstd::prelude::*;
use crate::protocol::{FlagArg, all_fixed, others, pattern, indices, uniform, transition};
use crate::shape::{Field, views};

verus! {

/// Which of the two companion holders is generated.
#[derive(PartialEq, Eq, Structural, Clone, Copy, Debug)]
pub enum Gate {
    /// Flags mean "set"; fields are assigned one by one, then completed.
    Builder,
    /// Flags mean "consumed"; fields are moved out one by one.
    Consumer,
}

/// The fields as (name, type source) pairs.
pub type FieldViews = Seq<(Seq<char>, Seq<char>)>;

/// The parts joined with `", "` between neighbours.
pub open spec fn join(parts: Seq<Seq<char>>) -> Seq<char>
    decreases parts.len(),
{
    if parts.len() == 0 {
        Seq::empty()
    } else if parts.len() == 1 {
        parts[0]
    } else {
        join(parts.drop_last()) + ", "@ + parts.last()
    }
}

/// The name of the generated holder type.
pub open spec fn holder_name(g: Gate, record: Seq<char>) -> Seq<char> {
    match g {
        Gate::Builder => record + "Builder"@,
        Gate::Consumer => record + "Consumer"@,
    }
}

/// The name of the flag parameter of a field.
pub open spec fn flag_name(g: Gate, field: Seq<char>) -> Seq<char> {
    match g {
        Gate::Builder => field + "SET"@,
        Gate::Consumer => field + "CONSUMED"@,
    }
}

/// The declaration of the flag parameter of a field.
pub open spec fn const_param(g: Gate, field: Seq<char>) -> Seq<char> {
    "const "@ + flag_name(g, field) + ": bool"@
}

/// The flag parameters named after the fields at `idxs`.
pub open spec fn const_params(g: Gate, fs: FieldViews, idxs: Seq<usize>) -> Seq<char> {
    join(Seq::new(idxs.len(), |k: int| const_param(g, fs[idxs[k] as int].0)))
}

/// One flag argument as source text.
pub open spec fn arg_text(g: Gate, fs: FieldViews, a: FlagArg) -> Seq<char> {
    match a {
        FlagArg::Fixed(true) => "true"@,
        FlagArg::Fixed(false) => "false"@,
        FlagArg::Free(j) => flag_name(g, fs[j as int].0),
    }
}

/// The holder type applied to the flag arguments `p`.
pub open spec fn holder_type(g: Gate, record: Seq<char>, fs: FieldViews, p: Seq<FlagArg>) -> Seq<
    char,
> {
    holder_name(g, record) + "<"@ + join(Seq::new(p.len(), |k: int| arg_text(g, fs, p[k]))) + ">"@
}

/// The forms in which the generated code lists every field.
#[derive(PartialEq, Eq, Structural, Clone, Copy, Debug)]
pub enum SlotForm {
    /// `f: Option<T>`, in the holder's declaration.
    Decl,
    /// `f: self.f`, carrying a slot over into a new holder.
    Carry,
    /// `f: None`, an empty slot.
    Empty,
    /// `f: Some(self.f)`, a slot filled from the record.
    Fill,
    /// `f: self.f.unwrap()`, a record field read from its slot.
    Take,
}

/// One field in the given form.
pub open spec fn slot_text(form: SlotForm, f: (Seq<char>, Seq<char>)) -> Seq<char> {
    match form {
        SlotForm::Decl => f.0 + ": Option<"@ + f.1 + ">"@,
        SlotForm::Carry => f.0 + ": self."@ + f.0,
        SlotForm::Empty => f.0 + ": None"@,
        SlotForm::Fill => f.0 + ": Some(self."@ + f.0 + ")"@,
        SlotForm::Take => f.0 + ": self."@ + f.0 + ".unwrap()"@,
    }
}

/// Every field in the given form, in order.
pub open spec fn slots(form: SlotForm, fs: FieldViews) -> Seq<char> {
    join(Seq::new(fs.len(), |k: int| slot_text(form, fs[k])))
}

/// The holder's declaration: one flag parameter and one optional slot per
/// field.
pub open spec fn decl_text(g: Gate, record: Seq<char>, fs: FieldViews) -> Seq<char> {
    "pub struct "@ + holder_name(g, record) + "<"@ + const_params(
        g,
        fs,
        Seq::new(fs.len(), |k: int| k as usize),
    ) + "> { "@ + slots(SlotForm::Decl, fs) + " }\n"@
}

/// The operation of field `i`: `set_<f>` of a builder, `consume_<f>` of a
/// consumer, generic over every other flag.
pub open spec fn op_text(g: Gate, record: Seq<char>, fs: FieldViews, i: int) -> Seq<char> {
    let n = fs.len() as int;
    let name = fs[i].0;
    let ty = fs[i].1;
    let head = "impl<"@ + const_params(g, fs, others(n, i)) + "> "@ + holder_type(
        g,
        record,
        fs,
        pattern(n, i, false),
    );
    let next = holder_type(g, record, fs, pattern(n, i, true));
    let rebuilt = holder_name(g, record) + " { "@ + slots(SlotForm::Carry, fs) + " }"@;
    match g {
        Gate::Builder => head + " { pub fn set_"@ + name + "(mut self, "@ + name + ": "@ + ty
            + ") -> "@ + next + " { self."@ + name + " = Some("@ + name + "); "@ + rebuilt
            + " } }\n"@,
        Gate::Consumer => head + " { pub fn consume_"@ + name + "(mut self) -> ("@ + ty + ", "@
            + next + ") { let value = self."@ + name + ".take().unwrap(); (value, "@ + rebuilt
            + ") } }\n"@,
    }
}

/// The operations of the first `k` fields, in order.
pub open spec fn ops_text(g: Gate, record: Seq<char>, fs: FieldViews, k: int) -> Seq<char>
    decreases k,
{
    if k <= 0 {
        Seq::empty()
    } else {
        ops_text(g, record, fs, k - 1) + op_text(g, record, fs, k - 1)
    }
}

/// The entry points, producing a holder with every flag `false`.
pub open spec fn entry_text(g: Gate, record: Seq<char>, fs: FieldViews) -> Seq<char> {
    let fresh = holder_type(g, record, fs, all_fixed(fs.len() as int, false));
    let h = holder_name(g, record);
    match g {
        Gate::Builder => "impl "@ + fresh + " { pub fn new() -> "@ + fresh + " { "@ + h + " { "@
            + slots(SlotForm::Empty, fs) + " } } }\n"@ + "impl "@ + record
            + " { pub fn builder() -> "@ + fresh + " { "@ + h + " { "@ + slots(SlotForm::Empty, fs)
            + " } } }\n"@,
        Gate::Consumer => "impl "@ + record + " { pub fn consumer(self) -> "@ + fresh + " { "@ + h
            + " { "@ + slots(SlotForm::Fill, fs) + " } } }\n"@,
    }
}

/// The exit point, defined on a holder with every flag `true`.
pub open spec fn exit_text(g: Gate, record: Seq<char>, fs: FieldViews) -> Seq<char> {
    let done = holder_type(g, record, fs, all_fixed(fs.len() as int, true));
    match g {
        Gate::Builder => "impl "@ + done + " { pub fn complete(self) -> "@ + record + " { "@
            + record + " { "@ + slots(SlotForm::Take, fs) + " } } }\n"@,
        Gate::Consumer => "impl "@ + done + " { pub fn consume(self) {} }\n"@,
    }
}

/// The whole generated source: declaration, operations, entry and exit.
pub open spec fn artifact(g: Gate, record: Seq<char>, fs: FieldViews) -> Seq<char> {
    decl_text(g, record, fs) + ops_text(g, record, fs, fs.len() as int) + entry_text(g, record, fs)
        + exit_text(g, record, fs)
}

/// Joins rendered parts with `", "` between neighbours.
pub fn join_parts(parts: &Vec<String>) -> (r: String)
    ensures
        r@ == join(parts@.map_values(|p: String| p@)),
{
    let ghost all = parts@.map_values(|p: String| p@);
    let mut r = String::new();
    let mut k: usize = 0;
    while k < parts.len()
        invariant
            k <= parts@.len(),
            all == parts@.map_values(|p: String| p@),
            r@ == join(all.take(k as int)),
        decreases parts@.len() - k,
    {
        assert(all.take(k + 1).drop_last() =~= all.take(k as int));
        if k > 0 {
            r.append(", ");
        }
        r.append(parts[k].as_str());
        k = k + 1;
        assert(r@ =~= join(all.take(k as int)));
    }
    assert(all.take(k as int) =~= all);
    r
}


/// The name of the generated holder type.
fn holder_name_text(g: Gate, record: &String) -> (r: String)
    ensures
        r@ == holder_name(g, record@),
{
    let mut r = record.clone();
    match g {
        Gate::Builder => r.append("Builder"),
        Gate::Consumer => r.append("Consumer"),
    }
    r
}

/// The name of the flag parameter of a field.
fn flag_text(g: Gate, field: &String) -> (r: String)
    ensures
        r@ == flag_name(g, field@),
{
    let mut r = field.clone();
    match g {
        Gate::Builder => r.append("SET"),
        Gate::Consumer => r.append("CONSUMED"),
    }
    r
}

/// The flag parameters named after the fields at `idxs`.
fn const_params_text(g: Gate, fs: &Vec<Field>, idxs: &Vec<usize>) -> (r: String)
    requires
        forall|k: int| 0 <= k < idxs@.len() ==> idxs@[k] < fs@.len(),
    ensures
        r@ == const_params(g, views(fs@), idxs@),
{
    let ghost want = Seq::new(idxs@.len(), |k: int| const_param(g, views(fs@)[idxs@[k] as int].0));
    let mut parts: Vec<String> = Vec::new();
    let mut k: usize = 0;
    while k < idxs.len()
        invariant
            want == Seq::new(idxs@.len(), |k: int| const_param(g, views(fs@)[idxs@[k] as int].0)),
            k <= idxs@.len(),
            forall|m: int| 0 <= m < idxs@.len() ==> idxs@[m] < fs@.len(),
            parts@.len() == k,
            forall|m: int| 0 <= m < k ==> (#[trigger] parts@[m])@ == want[m],
        decreases idxs@.len() - k,
    {
        let mut part = String::from_str("const ");
        let flag = flag_text(g, &fs[idxs[k]].name);
        part.append(flag.as_str());
        part.append(": bool");
        assert(part@ == want[k as int]);
        parts.push(part);
        k = k + 1;
    }
    assert(parts@.map_values(|q: String| q@) =~= want);
    join_parts(&parts)
}

/// The holder type applied to the flag arguments `p`.
fn holder_type_text(g: Gate, record: &String, fs: &Vec<Field>, p: &Vec<FlagArg>) -> (r: String)
    requires
        forall|k: int| 0 <= k < p@.len() ==> (#[trigger] p@[k] matches FlagArg::Free(j) ==> j < fs@.len()),
    ensures
        r@ == holder_type(g, record@, views(fs@), p@),
{
    let ghost want = Seq::new(p@.len(), |k: int| arg_text(g, views(fs@), p@[k]));
    let mut parts: Vec<String> = Vec::new();
    let mut k: usize = 0;
    while k < p.len()
        invariant
            want == Seq::new(p@.len(), |k: int| arg_text(g, views(fs@), p@[k])),
            k <= p@.len(),
            forall|m: int| 0 <= m < p@.len() ==> (#[trigger] p@[m] matches FlagArg::Free(j) ==> j < fs@.len()),
            parts@.len() == k,
            forall|m: int| 0 <= m < k ==> (#[trigger] parts@[m])@ == want[m],
        decreases p@.len() - k,
    {
        let part = match p[k] {
            FlagArg::Fixed(true) => String::from_str("true"),
            FlagArg::Fixed(false) => String::from_str("false"),
            FlagArg::Free(j) => flag_text(g, &fs[j].name),
        };
        assert(part@ == want[k as int]);
        parts.push(part);
        k = k + 1;
    }
    assert(parts@.map_values(|q: String| q@) =~= want);
    let mut r = holder_name_text(g, record);
    r.append("<");
    let args = join_parts(&parts);
    r.append(args.as_str());
    r.append(">");
    r
}

/// Every field in the given form, in order.
fn slots_text(form: SlotForm, fs: &Vec<Field>) -> (r: String)
    ensures
        r@ == slots(form, views(fs@)),
{
    let ghost want = Seq::new(fs@.len(), |k: int| slot_text(form, views(fs@)[k]));
    let mut parts: Vec<String> = Vec::new();
    let mut k: usize = 0;
    while k < fs.len()
        invariant
            want == Seq::new(fs@.len(), |k: int| slot_text(form, views(fs@)[k])),
            k <= fs@.len(),
            parts@.len() == k,
            forall|m: int| 0 <= m < k ==> (#[trigger] parts@[m])@ == want[m],
        decreases fs@.len() - k,
    {
        let name = fs[k].name.as_str();
        let mut part = fs[k].name.clone();
        match form {
            SlotForm::Decl => {
                part.append(": Option<");
                part.append(fs[k].ty.as_str());
                part.append(">");
            },
            SlotForm::Carry => {
                part.append(": self.");
                part.append(name);
            },
            SlotForm::Empty => {
                part.append(": None");
            },
            SlotForm::Fill => {
                part.append(": Some(self.");
                part.append(name);
                part.append(")");
            },
            SlotForm::Take => {
                part.append(": self.");
                part.append(name);
                part.append(".unwrap()");
            },
        }
        assert(part@ == want[k as int]);
        parts.push(part);
        k = k + 1;
    }
    assert(parts@.map_values(|q: String| q@) =~= want);
    join_parts(&parts)
}

/// The holder's declaration.
fn decl_source(g: Gate, record: &String, fs: &Vec<Field>) -> (r: String)
    ensures
        r@ == decl_text(g, record@, views(fs@)),
{
    let all = indices(fs.len());
    let mut r = String::from_str("pub struct ");
    let h = holder_name_text(g, record);
    r.append(h.as_str());
    r.append("<");
    let params = const_params_text(g, fs, &all);
    r.append(params.as_str());
    r.append("> { ");
    let decls = slots_text(SlotForm::Decl, fs);
    r.append(decls.as_str());
    r.append(" }\n");
    r
}

/// The operation of field `i`.
fn op_source(g: Gate, record: &String, fs: &Vec<Field>, i: usize) -> (r: String)
    requires
        i < fs@.len(),
    ensures
        r@ == op_text(g, record@, views(fs@), i as int),
{
    let t = transition(fs.len(), i);
    let name = fs[i].name.as_str();
    let mut r = String::from_str("impl<");
    let params = const_params_text(g, fs, &t.free);
    r.append(params.as_str());
    r.append("> ");
    let before = holder_type_text(g, record, fs, &t.before);
    r.append(before.as_str());
    let next = holder_type_text(g, record, fs, &t.after);
    let mut rebuilt = holder_name_text(g, record);
    rebuilt.append(" { ");
    let carried = slots_text(SlotForm::Carry, fs);
    rebuilt.append(carried.as_str());
    rebuilt.append(" }");
    match g {
        Gate::Builder => {
            r.append(" { pub fn set_");
            r.append(name);
            r.append("(mut self, ");
            r.append(name);
            r.append(": ");
            r.append(fs[i].ty.as_str());
            r.append(") -> ");
            r.append(next.as_str());
            r.append(" { self.");
            r.append(name);
            r.append(" = Some(");
            r.append(name);
            r.append("); ");
            r.append(rebuilt.as_str());
            r.append(" } }\n");
        },
        Gate::Consumer => {
            r.append(" { pub fn consume_");
            r.append(name);
            r.append("(mut self) -> (");
            r.append(fs[i].ty.as_str());
            r.append(", ");
            r.append(next.as_str());
            r.append(") { let value = self.");
            r.append(name);
            r.append(".take().unwrap(); (value, ");
            r.append(rebuilt.as_str());
            r.append(") } }\n");
        },
    }
    r
}

/// The entry points.
fn entry_source(g: Gate, record: &String, fs: &Vec<Field>) -> (r: String)
    ensures
        r@ == entry_text(g, record@, views(fs@)),
{
    let falses = uniform(fs.len(), false);
    let fresh = holder_type_text(g, record, fs, &falses);
    let h = holder_name_text(g, record);
    let mut r = String::from_str("impl ");
    match g {
        Gate::Builder => {
            let empties = slots_text(SlotForm::Empty, fs);
            r.append(fresh.as_str());
            r.append(" { pub fn new() -> ");
            r.append(fresh.as_str());
            r.append(" { ");
            r.append(h.as_str());
            r.append(" { ");
            r.append(empties.as_str());
            r.append(" } } }\n");
            r.append("impl ");
            r.append(record.as_str());
            r.append(" { pub fn builder() -> ");
            r.append(fresh.as_str());
            r.append(" { ");
            r.append(h.as_str());
            r.append(" { ");
            r.append(empties.as_str());
            r.append(" } } }\n");
        },
        Gate::Consumer => {
            let fills = slots_text(SlotForm::Fill, fs);
            r.append(record.as_str());
            r.append(" { pub fn consumer(self) -> ");
            r.append(fresh.as_str());
            r.append(" { ");
            r.append(h.as_str());
            r.append(" { ");
            r.append(fills.as_str());
            r.append(" } } }\n");
        },
    }
    r
}

/// The exit point.
fn exit_source(g: Gate, record: &String, fs: &Vec<Field>) -> (r: String)
    ensures
        r@ == exit_text(g, record@, views(fs@)),
{
    let trues = uniform(fs.len(), true);
    let done = holder_type_text(g, record, fs, &trues);
    let mut r = String::from_str("impl ");
    r.append(done.as_str());
    match g {
        Gate::Builder => {
            let takes = slots_text(SlotForm::Take, fs);
            r.append(" { pub fn complete(self) -> ");
            r.append(record.as_str());
            r.append(" { ");
            r.append(record.as_str());
            r.append(" { ");
            r.append(takes.as_str());
            r.append(" } } }\n");
        },
        Gate::Consumer => {
            r.append(" { pub fn consume(self) {} }\n");
        },
    }
    r
}

/// The source of the holder of kind `g` for the record `record` with the
/// fields `fs`: its declaration, the operation of each field in order, the
/// entry point and the exit point.
pub fn generate(g: Gate, record: &String, fs: &Vec<Field>) -> (r: String)
    ensures
        r@ == artifact(g, record@, views(fs@)),
{
    let mut r = decl_source(g, record, fs);
    let ghost decl = r@;
    let mut i: usize = 0;
    while i < fs.len()
        invariant
            i <= fs@.len(),
            decl == decl_text(g, record@, views(fs@)),
            r@ == decl + ops_text(g, record@, views(fs@), i as int),
        decreases fs@.len() - i,
    {
        let op = op_source(g, record, fs, i);
        r.append(op.as_str());
        i = i + 1;
        assert(r@ =~= decl + ops_text(g, record@, views(fs@), i as int));
    }
    let entry = entry_source(g, record, fs);
    r.append(entry.as_str());
    let exit = exit_source(g, record, fs);
    r.append(exit.as_str());
    r
}

} // verus!
