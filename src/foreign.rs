//! The foreign object model: a tree that describes, value by value, the objects
//! that the JVM side allocates.  Each node names the class and the constructor
//! descriptor to use, and carries the already projected constructor arguments in
//! the order in which they are passed.
use vstd::prelude::*;

verus! {

/// A value as the foreign runtime receives it.
#[derive(Debug, PartialEq, Eq)]
pub enum JavaValue {
    /// The foreign null reference.
    Null,
    /// A `boolean` argument.
    Bool(bool),
    /// An `int` argument.
    Int(i32),
    /// A `short` argument.
    Short(i16),
    /// A `byte[]` holding exactly these bytes.
    Bytes(Vec<u8>),
    /// A `java.lang.String` with this text.
    Text(String),
    /// A `java.net.InetAddress` built by `InetAddress.getByAddress` from these octets.
    Address(Vec<u8>),
    /// A `java.util.ArrayList` holding these elements in this order.
    List(Vec<JavaValue>),
    /// An object of `class`, built through the constructor with descriptor
    /// `signature` from `args`.
    Object { class: String, signature: String, args: Vec<JavaValue> },
}

/// The mathematical model of a `JavaValue`.
pub enum JValue {
    Null,
    Bool(bool),
    Int(i32),
    Short(i16),
    Bytes(Seq<u8>),
    Text(Seq<char>),
    Address(Seq<u8>),
    List(Seq<JValue>),
    Object { class: Seq<char>, signature: Seq<char>, args: Seq<JValue> },
}

impl View for JavaValue {
    type V = JValue;

    open spec fn view(&self) -> JValue
        decreases self,
    {
        match self {
            JavaValue::Null => JValue::Null,
            JavaValue::Bool(b) => JValue::Bool(*b),
            JavaValue::Int(n) => JValue::Int(*n),
            JavaValue::Short(n) => JValue::Short(*n),
            JavaValue::Bytes(b) => JValue::Bytes(b@),
            JavaValue::Text(s) => JValue::Text(s@),
            JavaValue::Address(o) => JValue::Address(o@),
            JavaValue::List(v) => JValue::List(views(v@)),
            JavaValue::Object { class, signature, args } => JValue::Object {
                class: class@,
                signature: signature@,
                args: views(args@),
            },
        }
    }
}

/// The models of a sequence of foreign values, element by element.
pub open spec fn views(s: Seq<JavaValue>) -> Seq<JValue>
    decreases s,
{
    if s.len() == 0 {
        Seq::empty()
    } else {
        views(s.drop_last()).push(s.last().view())
    }
}

/// `views` keeps the length and maps each element to its model.
pub proof fn lemma_views(s: Seq<JavaValue>)
    ensures
        #[trigger] views(s).len() == s.len(),
        forall|i: int| 0 <= i < s.len() ==> #[trigger] views(s)[i] == s[i]@,
    decreases s.len(),
{
    if s.len() > 0 {
        lemma_views(s.drop_last());
        assert(views(s) == views(s.drop_last()).push(s.last()@));
    } else {
        assert(views(s) == Seq::<JValue>::empty());
    }
}

/// The models of the elements of a sequence, in order.
pub proof fn lemma_views_equal(s: Seq<JavaValue>, m: Seq<JValue>)
    requires
        s.len() == m.len(),
        forall|i: int| 0 <= i < s.len() ==> s[i]@ == #[trigger] m[i],
    ensures
        views(s) == m,
{
    lemma_views(s);
    assert(views(s) =~= m);
}

/// An object of `class` built through its constructor without parameters.
pub open spec fn unit_object(class: Seq<char>) -> JValue {
    JValue::Object { class, signature: "()V"@, args: Seq::empty() }
}

/// The octets that a foreign address holds, read back; `None` for any other value.
pub open spec fn address_octets(v: JValue) -> Option<Seq<u8>> {
    match v {
        JValue::Address(octets) => Some(octets),
        _ => None,
    }
}

/// The class of an object, or `None` for anything that is not built from a
/// class of its own.
pub open spec fn class_of(v: JValue) -> Option<Seq<char>> {
    match v {
        JValue::Object { class, .. } => Some(class),
        _ => None,
    }
}

impl JavaValue {
    /// A list of the given elements, in their order.
    pub fn list(elements: Vec<JavaValue>) -> (r: JavaValue)
        ensures
            r@ == JValue::List(views(elements@)),
    {
        JavaValue::List(elements)
    }

    /// An object of `class` built through the constructor `signature` from `args`.
    pub fn object(class: &str, signature: &str, args: Vec<JavaValue>) -> (r: JavaValue)
        ensures
            r@ == (JValue::Object { class: class@, signature: signature@, args: views(args@) }),
    {
        JavaValue::Object { class: class.to_owned(), signature: signature.to_owned(), args }
    }

    /// An object of `class` built through its constructor without parameters.
    pub fn unit_object(class: &str) -> (r: JavaValue)
        ensures
            r@ == unit_object(class@),
    {
        let r = JavaValue::object(class, "()V", Vec::new());
        proof {
            assert(views(Seq::<JavaValue>::empty()) =~= Seq::<JValue>::empty());
        }
        r
    }

    /// Whether this is the foreign null reference.
    pub fn is_null(&self) -> (r: bool)
        ensures
            r == (self@ == JValue::Null),
    {
        match self {
            JavaValue::Null => true,
            _ => false,
        }
    }
}

} // verus!
