//! Generated schema types: the Rust structs and TypeScript interfaces produced for the
//! nodes, edges and vectors of a schema.
use vstd::prelude::*;
use crate::text::{decimal, push_decimal, push_str};

verus! {

/// A Rust scalar type a schema field can have.
#[derive(Debug, Clone, Copy, PartialEq, Eq, Structural)]
pub enum RustType {
    String,
    Bool,
    I8,
    I16,
    I32,
    I64,
    U8,
    U16,
    U32,
    U64,
    U128,
    F32,
    F64,
}

impl RustType {
    /// The Rust name of the type.
    pub fn rust_name(&self) -> (r: &'static str)
        ensures
            r@ == rust_name_spec(*self),
    {
        match self {
            RustType::String => "String",
            RustType::Bool => "bool",
            RustType::I8 => "i8",
            RustType::I16 => "i16",
            RustType::I32 => "i32",
            RustType::I64 => "i64",
            RustType::U8 => "u8",
            RustType::U16 => "u16",
            RustType::U32 => "u32",
            RustType::U64 => "u64",
            RustType::U128 => "u128",
            RustType::F32 => "f32",
            RustType::F64 => "f64",
        }
    }

    /// The TypeScript name of the type.
    pub fn to_ts(&self) -> (r: &'static str)
        ensures
            r@ == ts_name_spec(*self),
    {
        match self {
            RustType::String => "string",
            RustType::Bool => "boolean",
            _ => "number",
        }
    }
}

/// The Rust name of a scalar type.
pub open spec fn rust_name_spec(t: RustType) -> Seq<char> {
    match t {
        RustType::String => "String"@,
        RustType::Bool => "bool"@,
        RustType::I8 => "i8"@,
        RustType::I16 => "i16"@,
        RustType::I32 => "i32"@,
        RustType::I64 => "i64"@,
        RustType::U8 => "u8"@,
        RustType::U16 => "u16"@,
        RustType::U32 => "u32"@,
        RustType::U64 => "u64"@,
        RustType::U128 => "u128"@,
        RustType::F32 => "f32"@,
        RustType::F64 => "f64"@,
    }
}

/// The TypeScript name of a scalar type: `string`, `boolean`, or `number`.
pub open spec fn ts_name_spec(t: RustType) -> Seq<char> {
    match t {
        RustType::String => "string"@,
        RustType::Bool => "boolean"@,
        _ => "number"@,
    }
}

/// The type of a generated field.
#[derive(Debug)]
pub enum GeneratedType {
    RustType(RustType),
    Vec(Box<GeneratedType>),
    /// A vector of `f32` with the given number of dimensions.
    VectorF32(usize),
    /// Any other generated type, by its Rust name.
    Named(String),
}

/// A default value of a generated field, as written in the schema.
#[derive(Debug, Clone)]
pub enum GeneratedValue {
    Literal(String),
    Identifier(String),
}

/// The prefix of a schema field.
#[derive(Debug, Clone, Copy, PartialEq, Eq, Structural)]
pub enum FieldPrefix {
    Empty,
    Index,
    UniqueIndex,
    Optional,
}

/// A field of a generated schema.
#[derive(Debug)]
pub struct SchemaProperty {
    pub name: String,
    pub field_type: GeneratedType,
    pub default_value: Option<GeneratedValue>,
    pub field_prefix: FieldPrefix,
}

/// The Rust text of a field type.
pub open spec fn type_display(t: GeneratedType) -> Seq<char>
    decreases t,
{
    match t {
        GeneratedType::RustType(r) => rust_name_spec(r),
        GeneratedType::Vec(inner) => "Vec<"@ + type_display(*inner) + ">"@,
        GeneratedType::VectorF32(_) => "Vec<f32>"@,
        GeneratedType::Named(n) => n@,
    }
}

impl GeneratedType {
    /// Appends the Rust text of the type.
    pub fn push_display(&self, s: &mut String)
        ensures
            final(s)@ == old(s)@ + type_display(*self),
        decreases self,
    {
        match self {
            GeneratedType::RustType(r) => push_str(s, r.rust_name()),
            GeneratedType::Vec(inner) => {
                push_str(s, "Vec<");
                inner.push_display(s);
                push_str(s, ">");
            },
            GeneratedType::VectorF32(_) => push_str(s, "Vec<f32>"),
            GeneratedType::Named(n) => push_str(s, n.as_str()),
        }
    }
}

/// The TypeScript text of a vector of `n` dimensions.
pub open spec fn ts_vector(n: usize) -> Seq<char> {
    "Array<number> /* vector("@ + decimal(n as nat) + ") */"@
}

/// The TypeScript text of a field type where nodes allow it (scalars, vectors and
/// arrays of scalars); `None` for any other type.
pub open spec fn node_ts_type(t: GeneratedType) -> Option<Seq<char>> {
    match t {
        GeneratedType::RustType(r) => Some(ts_name_spec(r)),
        GeneratedType::VectorF32(n) => Some(ts_vector(n)),
        GeneratedType::Vec(inner) => Some(
            "Array<"@ + (match *inner {
                GeneratedType::RustType(r) => ts_name_spec(r),
                _ => "unknown"@,
            }) + ">"@,
        ),
        _ => None,
    }
}

/// The TypeScript text of a field type where edges and vectors allow it (scalars and
/// vectors); `None` for any other type.
pub open spec fn scalar_ts_type(t: GeneratedType) -> Option<Seq<char>> {
    match t {
        GeneratedType::RustType(r) => Some(ts_name_spec(r)),
        GeneratedType::VectorF32(n) => Some(ts_vector(n)),
        _ => None,
    }
}

/// The TypeScript type written for a field: its type, or an error comment naming the
/// field when its type is not allowed.
pub open spec fn ts_field_type(name: Seq<char>, t: Option<Seq<char>>) -> Seq<char> {
    match t {
        Some(x) => x,
        None => "/* ERROR: unsupported type for "@ + name + " */"@,
    }
}

fn push_ts_vector(s: &mut String, n: usize)
    ensures
        final(s)@ == old(s)@ + ts_vector(n),
{
    push_str(s, "Array<number> /* vector(");
    push_decimal(s, n as u128);
    push_str(s, ") */");
}

fn push_ts_type(s: &mut String, name: &str, t: &GeneratedType, allow_arrays: bool)
    ensures
        final(s)@ == old(s)@ + ts_field_type(
            name@,
            if allow_arrays {
                node_ts_type(*t)
            } else {
                scalar_ts_type(*t)
            },
        ),
{
    match t {
        GeneratedType::RustType(r) => push_str(s, r.to_ts()),
        GeneratedType::VectorF32(n) => push_ts_vector(s, *n),
        GeneratedType::Vec(inner) => {
            if allow_arrays {
                push_str(s, "Array<");
                match &**inner {
                    GeneratedType::RustType(r) => push_str(s, r.to_ts()),
                    _ => push_str(s, "unknown"),
                }
                push_str(s, ">");
            } else {
                push_str(s, "/* ERROR: unsupported type for ");
                push_str(s, name);
                push_str(s, " */");
            }
        },
        GeneratedType::Named(_) => {
            push_str(s, "/* ERROR: unsupported type for ");
            push_str(s, name);
            push_str(s, " */");
        },
    }
}


/// The TypeScript name of a scalar Rust type: `string` for `String`, `boolean` for
/// `bool`, `number` for every number type.
pub open spec fn ts_name_written(r: RustType, name: Seq<char>) -> bool {
    ||| (r == RustType::String && name == "string"@)
    ||| (r == RustType::Bool && name == "boolean"@)
    ||| (r != RustType::String && r != RustType::Bool && name == "number"@)
}

/// In a node's TypeScript interface, a field holding a list of a scalar type `T` is
/// written `Array<T>` with the TypeScript name of `T` (`Vec<String>` is
/// `Array<string>`), the same name a field of type `T` itself gets; the line follows the
/// lines of the fields before it.
pub proof fn lemma_ts_array_field(ps: Seq<SchemaProperty>, p: SchemaProperty, r: RustType, ts: Seq<char>)
    requires
        p.field_type matches GeneratedType::Vec(inner) && *inner == GeneratedType::RustType(r),
        ts_name_written(r, ts),
    ensures
        node_ts_type(GeneratedType::RustType(r)) == Some(ts),
        node_ts_type(p.field_type) == Some("Array<"@ + ts + ">"@),
        ts_fields(ps.push(p), true) == ts_fields(ps, true) + "  "@ + p.name@ + ": "@ + "Array<"@ + ts + ">"@ + ";\n"@,
{
    assert(ps.push(p).drop_last() =~= ps);
    assert(ps.push(p).last() == p);
}

/// The Rust field lines of a list of properties: `    pub <name>: <type>,` each.
pub open spec fn rust_fields(ps: Seq<SchemaProperty>) -> Seq<char>
    decreases ps.len(),
{
    if ps.len() == 0 {
        Seq::empty()
    } else {
        rust_fields(ps.drop_last()) + "    pub "@ + ps.last().name@ + ": "@ + type_display(ps.last().field_type)
            + ",\n"@
    }
}

fn push_rust_fields(s: &mut String, ps: &Vec<SchemaProperty>)
    ensures
        final(s)@ == old(s)@ + rust_fields(ps@),
{
    let mut i: usize = 0;
    while i < ps.len()
        invariant
            i <= ps@.len(),
            s@ == old(s)@ + rust_fields(ps@.take(i as int)),
        decreases ps@.len() - i,
    {
        assert(ps@.take(i + 1).drop_last() =~= ps@.take(i as int));
        push_str(s, "    pub ");
        push_str(s, ps[i].name.as_str());
        push_str(s, ": ");
        ps[i].field_type.push_display(s);
        push_str(s, ",\n");
        i = i + 1;
    }
    assert(ps@.take(ps@.len() as int) =~= ps@);
}

/// The TypeScript field lines of a node or vector: `  <name>: <type>;` each.
pub open spec fn ts_fields(ps: Seq<SchemaProperty>, allow_arrays: bool) -> Seq<char>
    decreases ps.len(),
{
    if ps.len() == 0 {
        Seq::empty()
    } else {
        let p = ps.last();
        ts_fields(ps.drop_last(), allow_arrays) + "  "@ + p.name@ + ": "@ + ts_field_type(
            p.name@,
            if allow_arrays {
                node_ts_type(p.field_type)
            } else {
                scalar_ts_type(p.field_type)
            },
        ) + ";\n"@
    }
}

fn push_ts_fields(s: &mut String, ps: &Vec<SchemaProperty>, allow_arrays: bool)
    ensures
        final(s)@ == old(s)@ + ts_fields(ps@, allow_arrays),
{
    let mut i: usize = 0;
    while i < ps.len()
        invariant
            i <= ps@.len(),
            s@ == old(s)@ + ts_fields(ps@.take(i as int), allow_arrays),
        decreases ps@.len() - i,
    {
        assert(ps@.take(i + 1).drop_last() =~= ps@.take(i as int));
        push_str(s, "  ");
        push_str(s, ps[i].name.as_str());
        push_str(s, ": ");
        push_ts_type(s, ps[i].name.as_str(), &ps[i].field_type, allow_arrays);
        push_str(s, ";\n");
        i = i + 1;
    }
    assert(ps@.take(ps@.len() as int) =~= ps@);
}

/// The generated schema of a node type.
#[derive(Debug)]
pub struct NodeSchema {
    pub name: String,
    pub properties: Vec<SchemaProperty>,
}

impl NodeSchema {
    /// The Rust struct of the node type.
    pub fn display_text(&self) -> (r: String)
        ensures
            r@ == "pub struct "@ + self.name@ + " {\n"@ + rust_fields(self.properties@) + "}\n"@,
    {
        let mut s = String::new();
        push_str(&mut s, "pub struct ");
        push_str(&mut s, self.name.as_str());
        push_str(&mut s, " {\n");
        push_rust_fields(&mut s, &self.properties);
        push_str(&mut s, "}\n");
        assert(Seq::<char>::empty() + "pub struct "@ =~= "pub struct "@);
        s
    }

    /// The TypeScript interface of the node type: an `id`, then the fields.
    pub fn to_typescript(&self) -> (r: String)
        ensures
            r@ == "interface "@ + self.name@ + " {\n"@ + "  id: string;\n"@ + ts_fields(self.properties@, true)
                + "}\n"@,
    {
        let mut s = String::new();
        push_str(&mut s, "interface ");
        push_str(&mut s, self.name.as_str());
        push_str(&mut s, " {\n");
        push_str(&mut s, "  id: string;\n");
        push_ts_fields(&mut s, &self.properties, true);
        push_str(&mut s, "}\n");
        assert(Seq::<char>::empty() + "interface "@ =~= "interface "@);
        s
    }
}

/// The generated schema of an edge type.
#[derive(Debug)]
pub struct EdgeSchema {
    pub name: String,
    pub from: String,
    pub to: String,
    pub is_unique: bool,
    pub properties: Vec<SchemaProperty>,
}

/// The TypeScript property entries of an edge: `    <name>: <type>`, joined by `;`.
pub open spec fn edge_ts_fields(ps: Seq<SchemaProperty>) -> Seq<char>
    decreases ps.len(),
{
    if ps.len() == 0 {
        Seq::empty()
    } else {
        let p = ps.last();
        let entry = "    "@ + p.name@ + ": "@ + ts_field_type(p.name@, scalar_ts_type(p.field_type));
        if ps.len() == 1 {
            entry
        } else {
            edge_ts_fields(ps.drop_last()) + ";"@ + entry
        }
    }
}

impl EdgeSchema {
    /// The Rust struct of the edge type: `from` and `to`, then the fields.
    pub fn display_text(&self) -> (r: String)
        ensures
            r@ == "pub struct "@ + self.name@ + " {\n"@ + "    pub from: "@ + self.from@ + ",\n"@
                + "    pub to: "@ + self.to@ + ",\n"@ + rust_fields(self.properties@) + "}\n"@,
    {
        let mut s = String::new();
        push_str(&mut s, "pub struct ");
        push_str(&mut s, self.name.as_str());
        push_str(&mut s, " {\n");
        push_str(&mut s, "    pub from: ");
        push_str(&mut s, self.from.as_str());
        push_str(&mut s, ",\n");
        push_str(&mut s, "    pub to: ");
        push_str(&mut s, self.to.as_str());
        push_str(&mut s, ",\n");
        push_rust_fields(&mut s, &self.properties);
        push_str(&mut s, "}\n");
        assert(Seq::<char>::empty() + "pub struct "@ =~= "pub struct "@);
        s
    }

    /// The TypeScript interface of the edge type.
    pub fn to_typescript(&self) -> (r: String)
        ensures
            r@ == "interface "@ + self.name@ + " {\n  id: string;\n  from: "@ + self.from@ + ";\n  to: "@
                + self.to@ + ";\n  properties: {\n\t"@ + edge_ts_fields(self.properties@) + "\n};\n}\n"@,
    {
        let mut s = String::new();
        push_str(&mut s, "interface ");
        push_str(&mut s, self.name.as_str());
        push_str(&mut s, " {\n  id: string;\n  from: ");
        push_str(&mut s, self.from.as_str());
        push_str(&mut s, ";\n  to: ");
        push_str(&mut s, self.to.as_str());
        push_str(&mut s, ";\n  properties: {\n\t");
        let ghost start = s@;
        let mut i: usize = 0;
        while i < self.properties.len()
            invariant
                i <= self.properties@.len(),
                s@ == start + edge_ts_fields(self.properties@.take(i as int)),
            decreases self.properties@.len() - i,
        {
            let ps = &self.properties;
            assert(ps@.take(i + 1).drop_last() =~= ps@.take(i as int));
            if i > 0 {
                push_str(&mut s, ";");
            }
            push_str(&mut s, "    ");
            push_str(&mut s, ps[i].name.as_str());
            push_str(&mut s, ": ");
            push_ts_type(&mut s, ps[i].name.as_str(), &ps[i].field_type, false);
            i = i + 1;
        }
        assert(self.properties@.take(self.properties@.len() as int) =~= self.properties@);
        push_str(&mut s, "\n};\n}\n");
        assert(Seq::<char>::empty() + "interface "@ =~= "interface "@);
        s
    }
}

/// The generated schema of a vector type.
#[derive(Debug)]
pub struct VectorSchema {
    pub name: String,
    pub properties: Vec<SchemaProperty>,
}

impl VectorSchema {
    /// The Rust struct of the vector type.
    pub fn display_text(&self) -> (r: String)
        ensures
            r@ == "pub struct "@ + self.name@ + " {\n"@ + rust_fields(self.properties@) + "}\n"@,
    {
        let mut s = String::new();
        push_str(&mut s, "pub struct ");
        push_str(&mut s, self.name.as_str());
        push_str(&mut s, " {\n");
        push_rust_fields(&mut s, &self.properties);
        push_str(&mut s, "}\n");
        assert(Seq::<char>::empty() + "pub struct "@ =~= "pub struct "@);
        s
    }

    /// The TypeScript interface of the vector type: an `id` and the `data`, then the fields.
    pub fn to_typescript(&self) -> (r: String)
        ensures
            r@ == "interface "@ + self.name@ + " {\n"@ + "  id: string;\n"@ + "  data: Array<number>;\n"@
                + ts_fields(self.properties@, false) + "}\n"@,
    {
        let mut s = String::new();
        push_str(&mut s, "interface ");
        push_str(&mut s, self.name.as_str());
        push_str(&mut s, " {\n");
        push_str(&mut s, "  id: string;\n");
        push_str(&mut s, "  data: Array<number>;\n");
        push_ts_fields(&mut s, &self.properties, false);
        push_str(&mut s, "}\n");
        assert(Seq::<char>::empty() + "interface "@ =~= "interface "@);
        s
    }
}

} // verus!
