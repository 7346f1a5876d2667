//! The object model: a small closed set of printable values, ordered records
//! of styled fields, and the builder that assembles them.

use vstd::prelude::*;

use crate::decimal::{decimal_digits, decimal_string};

verus! {

/// A printable value: the closed set of variants the renderer understands.
#[derive(Debug)]
pub enum Value {
    Bool(bool),
    String(String),
    Object(Object),
    Vector(Vec<Value>),
}

/// The rendering policy for a `String`-valued field; ignored for the other
/// variants.
#[derive(Clone, Copy, Debug, PartialEq, Eq)]
pub enum FieldStyle {
    Auto,
    Enum,
    Price,
    Description,
}

/// An ordered record of fields; insertion order is display order.
#[derive(Debug)]
pub struct Object {
    pub fields: Vec<Field>,
}

/// A transient accumulator that assembles an `Object` field by field.
#[derive(Debug)]
pub struct ObjectBuilder {
    pub object: Object,
}

/// A single labeled slot in an `Object`: key, value, and display style.
#[derive(Debug)]
pub struct Field {
    pub key: String,
    pub value: Value,
    pub style: FieldStyle,
}

/// The mathematical shape of a `Value`: text as character sequences, records
/// and vectors as sequences.
#[verifier::ext_equal]
pub enum ValueView {
    Bool(bool),
    Str(Seq<char>),
    Object(Seq<FieldView>),
    Vector(Seq<ValueView>),
}

/// The mathematical shape of a `Field`.
#[verifier::ext_equal]
pub struct FieldView {
    pub key: Seq<char>,
    pub value: ValueView,
    pub style: FieldStyle,
}

/// The views of the first `n` fields of `s`, in order.
pub open spec fn field_seq_view_upto(s: Seq<Field>, n: int) -> Seq<FieldView>
    decreases s, n,
{
    if n <= 0 || n > s.len() {
        Seq::empty()
    } else {
        field_seq_view_upto(s, n - 1).push(field_view(s[n - 1]))
    }
}

/// The views of the first `n` values of `s`, in order.
pub open spec fn value_seq_view_upto(s: Seq<Value>, n: int) -> Seq<ValueView>
    decreases s, n,
{
    if n <= 0 || n > s.len() {
        Seq::empty()
    } else {
        value_seq_view_upto(s, n - 1).push(value_view(s[n - 1]))
    }
}

/// The view of a single value.
pub open spec fn value_view(v: Value) -> ValueView
    decreases v, 1int,
{
    match v {
        Value::Bool(b) => ValueView::Bool(b),
        Value::String(s) => ValueView::Str(s@),
        Value::Object(o) => ValueView::Object(
            field_seq_view_upto(o.fields@, o.fields@.len() as int),
        ),
        Value::Vector(vs) => ValueView::Vector(value_seq_view_upto(vs@, vs@.len() as int)),
    }
}

/// The view of a single field.
pub open spec fn field_view(f: Field) -> FieldView
    decreases f, 2int,
{
    FieldView { key: f.key@, value: value_view(f.value), style: f.style }
}

/// The views of all fields of `s`, in order.
pub open spec fn field_seq_view(s: Seq<Field>) -> Seq<FieldView> {
    field_seq_view_upto(s, s.len() as int)
}

/// The views of all values of `s`, in order.
pub open spec fn value_seq_view(s: Seq<Value>) -> Seq<ValueView> {
    value_seq_view_upto(s, s.len() as int)
}

pub proof fn lemma_field_seq_view_upto(s: Seq<Field>, n: int)
    requires
        0 <= n <= s.len(),
    ensures
        field_seq_view_upto(s, n).len() == n,
        forall|i: int| 0 <= i < n ==> field_seq_view_upto(s, n)[i] == field_view(s[i]),
    decreases n,
{
    if n > 0 {
        lemma_field_seq_view_upto(s, n - 1);
    }
}

pub proof fn lemma_value_seq_view_upto(s: Seq<Value>, n: int)
    requires
        0 <= n <= s.len(),
    ensures
        value_seq_view_upto(s, n).len() == n,
        forall|i: int| 0 <= i < n ==> value_seq_view_upto(s, n)[i] == value_view(s[i]),
    decreases n,
{
    if n > 0 {
        lemma_value_seq_view_upto(s, n - 1);
    }
}

/// The view of a field sequence has the same length and element views.
pub proof fn lemma_field_seq_view(s: Seq<Field>)
    ensures
        field_seq_view(s).len() == s.len(),
        forall|i: int| 0 <= i < s.len() ==> field_seq_view(s)[i] == field_view(s[i]),
{
    lemma_field_seq_view_upto(s, s.len() as int);
}

/// The view of a value sequence has the same length and element views.
pub proof fn lemma_value_seq_view(s: Seq<Value>)
    ensures
        value_seq_view(s).len() == s.len(),
        forall|i: int| 0 <= i < s.len() ==> value_seq_view(s)[i] == value_view(s[i]),
{
    lemma_value_seq_view_upto(s, s.len() as int);
}

/// Appending a field appends its view.
pub proof fn lemma_field_seq_view_push(s: Seq<Field>, f: Field)
    ensures
        field_seq_view(s.push(f)) == field_seq_view(s).push(field_view(f)),
{
    lemma_field_seq_view(s);
    lemma_field_seq_view(s.push(f));
    assert(field_seq_view(s.push(f)) =~= field_seq_view(s).push(field_view(f)));
}

impl View for Value {
    type V = ValueView;

    open spec fn view(&self) -> ValueView {
        value_view(*self)
    }
}

impl View for Field {
    type V = FieldView;

    open spec fn view(&self) -> FieldView {
        field_view(*self)
    }
}

impl View for Object {
    type V = Seq<FieldView>;

    open spec fn view(&self) -> Seq<FieldView> {
        field_seq_view(self.fields@)
    }
}

impl View for ObjectBuilder {
    type V = Seq<FieldView>;

    open spec fn view(&self) -> Seq<FieldView> {
        self.object@
    }
}

impl Default for FieldStyle {
    /// The default style is `Auto`.
    fn default() -> (r: Self)
        ensures
            r == FieldStyle::Auto,
    {
        FieldStyle::Auto
    }
}

impl Default for Object {
    /// An object with no fields.
    fn default() -> (r: Self)
        ensures
            r@ == Seq::<FieldView>::empty(),
    {
        Object { fields: Vec::new() }
    }
}

impl Default for ObjectBuilder {
    /// A builder holding no fields yet.
    fn default() -> (r: Self)
        ensures
            r@ == Seq::<FieldView>::empty(),
    {
        ObjectBuilder { object: Object::default() }
    }
}

impl Object {
    /// How many fields the object holds.
    pub fn len(&self) -> (n: usize)
        ensures
            n == self@.len(),
    {
        proof {
            lemma_field_seq_view(self.fields@);
        }
        self.fields.len()
    }

    /// The field at position `i`, in insertion order.
    pub fn field(&self, i: usize) -> (f: &Field)
        requires
            i < self@.len(),
        ensures
            f@ == self@[i as int],
    {
        proof {
            lemma_field_seq_view(self.fields@);
        }
        &self.fields[i]
    }
}

impl ObjectBuilder {
    /// Appends `field` at the end; field order is call order.
    pub fn with_field(self, field: Field) -> (r: Self)
        ensures
            r@ == self@.push(field@),
    {
        let mut builder = self;
        proof {
            lemma_field_seq_view_push(builder.object.fields@, field);
        }
        builder.object.fields.push(field);
        builder
    }

    /// Finalizes the accumulated object; the builder is consumed.
    pub fn build(self) -> (r: Object)
        ensures
            r@ == self@,
    {
        self.object
    }
}

impl Value {
    /// A string value copied from borrowed text.
    pub fn text(s: &str) -> (v: Value)
        ensures
            v@ == ValueView::Str(s@),
    {
        Value::String(s.to_owned())
    }

    /// A string value holding the decimal text of `n`.
    pub fn number(n: u64) -> (v: Value)
        ensures
            v@ == ValueView::Str(decimal_digits(n as nat)),
    {
        Value::String(decimal_string(n))
    }
}

impl From<bool> for Value {
    /// The boolean value itself.
    fn from(value: bool) -> (r: Self) {
        Value::Bool(value)
    }
}

impl vstd::std_specs::convert::FromSpecImpl<bool> for Value {
    open spec fn obeys_from_spec() -> bool {
        true
    }

    open spec fn from_spec(v: bool) -> Value {
        Value::Bool(v)
    }
}

impl From<String> for Value {
    /// A string value owning the given text.
    fn from(value: String) -> (r: Self) {
        Value::String(value)
    }
}

impl vstd::std_specs::convert::FromSpecImpl<String> for Value {
    open spec fn obeys_from_spec() -> bool {
        true
    }

    open spec fn from_spec(v: String) -> Value {
        Value::String(v)
    }
}

impl From<&str> for Value {
    /// A string value copied from the borrowed text; `Value::text` carries
    /// the contract.
    fn from(value: &str) -> (r: Self) {
        Value::text(value)
    }
}

impl vstd::std_specs::convert::FromSpecImpl<&str> for Value {
    open spec fn obeys_from_spec() -> bool {
        false
    }

    open spec fn from_spec(v: &str) -> Value {
        arbitrary()
    }
}

impl From<u8> for Value {
    /// A string value holding the decimal text; `Value::number` carries the
    /// contract.
    fn from(value: u8) -> (r: Self) {
        Value::number(value as u64)
    }
}

impl vstd::std_specs::convert::FromSpecImpl<u8> for Value {
    open spec fn obeys_from_spec() -> bool {
        false
    }

    open spec fn from_spec(v: u8) -> Value {
        arbitrary()
    }
}

impl From<u64> for Value {
    /// A string value holding the decimal text; `Value::number` carries the
    /// contract.
    fn from(value: u64) -> (r: Self) {
        Value::number(value)
    }
}

impl vstd::std_specs::convert::FromSpecImpl<u64> for Value {
    open spec fn obeys_from_spec() -> bool {
        false
    }

    open spec fn from_spec(v: u64) -> Value {
        arbitrary()
    }
}

impl Field {
    /// A field with the given key and value, styled `Auto`.
    pub fn new(key: &str, value: Value) -> (r: Self)
        ensures
            r@ == (FieldView { key: key@, value: value@, style: FieldStyle::Auto }),
    {
        Field { key: key.to_owned(), value, style: FieldStyle::default() }
    }

    /// The same field with its style overridden.
    pub fn with_style(self, style: FieldStyle) -> (r: Self)
        ensures
            r@ == (FieldView { style, ..self@ }),
    {
        let mut field = self;
        field.style = style;
        field
    }
}

} // verus!
