//! The shape of a record: which declarations can receive a builder or a
//! consumer, and the ordered fields that the generators work from.
use vstd::prelude::*;

verus! {

/// One field as it was declared: its name, if it has one, and the source
/// text of its type.
pub struct RawField {
    pub name: Option<String>,
    pub ty: String,
}

/// The body of a declaration.
pub enum Body {
    /// A struct with braces or parentheses; positional fields have no name.
    Fields(Vec<RawField>),
    /// A struct without any body (`struct S;`).
    Unit,
    /// A tagged union.
    Enum,
    /// An untagged union.
    Union,
}

/// A declaration that a builder or consumer is asked for.
pub struct RecordShape {
    pub name: String,
    pub body: Body,
}

/// A named field: the unit the generators work on.
pub struct Field {
    pub name: String,
    pub ty: String,
}

impl View for Field {
    type V = (Seq<char>, Seq<char>);

    open spec fn view(&self) -> (Seq<char>, Seq<char>) {
        (self.name@, self.ty@)
    }
}

/// The names and types of a list of fields.
pub open spec fn views(fs: Seq<Field>) -> Seq<(Seq<char>, Seq<char>)> {
    fs.map_values(|f: Field| f@)
}

/// The names and types of declared fields that all carry a name.
pub open spec fn named_views(fs: Seq<RawField>) -> Seq<(Seq<char>, Seq<char>)> {
    fs.map_values(|f: RawField| (f.name->Some_0@, f.ty@))
}

/// Why no builder or consumer can be generated for a declaration.
#[derive(PartialEq, Eq, Structural, Clone, Copy, Debug)]
pub enum ShapeError {
    /// The declaration is not a struct with a braced field list; the
    /// diagnostic belongs at the record's name.
    NotAStruct,
    /// The field at this position has no name; the diagnostic belongs at
    /// that field.
    UnnamedField(usize),
}

/// Every field of `fs` up to `k` (exclusive) carries a name.
pub open spec fn named_up_to(fs: Seq<RawField>, k: int) -> bool {
    forall|j: int| 0 <= j < k ==> (#[trigger] fs[j]).name is Some
}

/// `out` lists the names and types of `fs`, in order.
pub open spec fn fields_of(fs: Seq<RawField>, out: Seq<Field>) -> bool {
    &&& out.len() == fs.len()
    &&& forall|j: int|
        0 <= j < fs.len() ==> (#[trigger] out[j]).name@ == fs[j].name->Some_0@ && out[j].ty@
            == fs[j].ty@
}

/// What extracting the fields of a body yields: the fields in declaration
/// order, `UnnamedField` at the first field without a name, and `NotAStruct`
/// for a unit struct, an enum or a union. Names are not checked for
/// repetition: a repeated name makes the generated source fail to compile,
/// which is where it is reported.
pub open spec fn extracted(body: Body, r: Result<Vec<Field>, ShapeError>) -> bool {
    match body {
        Body::Fields(fs) => match r {
            Ok(out) => {
                &&& named_up_to(fs@, fs@.len() as int)
                &&& fields_of(fs@, out@)
                &&& views(out@) == named_views(fs@)
            },
            Err(ShapeError::UnnamedField(k)) => {
                &&& k < fs@.len()
                &&& fs@[k as int].name is None
                &&& named_up_to(fs@, k as int)
            },
            Err(ShapeError::NotAStruct) => false,
        },
        _ => r == Err::<Vec<Field>, ShapeError>(ShapeError::NotAStruct),
    }
}

impl ShapeError {
    /// The diagnostic shown to the author of the record; `for_builder`
    /// selects the wording of the builder or of the consumer.
    pub fn message(&self, for_builder: bool) -> (r: String)
        ensures
            r@ == match *self {
                ShapeError::NotAStruct => if for_builder {
                    "Can only define builders for structs"@
                } else {
                    "Can only define consumers for structs"@
                },
                ShapeError::UnnamedField(_) => "Expected identifier"@,
            },
    {
        match self {
            ShapeError::NotAStruct => if for_builder {
                String::from_str("Can only define builders for structs")
            } else {
                String::from_str("Can only define consumers for structs")
            },
            ShapeError::UnnamedField(_) => String::from_str("Expected identifier"),
        }
    }
}

/// Reads the ordered named fields of a record, or says why it has none.
pub fn extract_fields(shape: &RecordShape) -> (r: Result<Vec<Field>, ShapeError>)
    ensures
        extracted(shape.body, r),
{
    match &shape.body {
        Body::Fields(fs) => {
            let mut out: Vec<Field> = Vec::new();
            let mut i: usize = 0;
            while i < fs.len()
                invariant
                    i <= fs@.len(),
                    shape.body == Body::Fields(*fs),
                    named_up_to(fs@, i as int),
                    fields_of(fs@.take(i as int), out@),
                decreases fs@.len() - i,
            {
                match &fs[i].name {
                    Some(n) => {
                        out.push(Field { name: n.clone(), ty: fs[i].ty.clone() });
                    },
                    None => {
                        return Err(ShapeError::UnnamedField(i));
                    },
                }
                i = i + 1;
            }
            assert(fs@.take(i as int) =~= fs@);
            assert(views(out@) =~= named_views(fs@));
            Ok(out)
        },
        _ => Err(ShapeError::NotAStruct),
    }
}

} // verus!
