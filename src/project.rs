//! The projection discipline: every projectable value states, as a spec
//! function, the foreign value it becomes, and its `into_java` builds exactly that.
use crate::foreign::{lemma_views_equal, JValue, JavaValue};
use vstd::prelude::*;
use vstd::slice::slice_to_vec;

verus! {

/// A value that can be projected into the foreign runtime.
pub trait IntoJava: Sized {
    /// The model of the foreign value that this value becomes.
    spec fn projection(self) -> JValue;

    /// Builds the foreign value for `self`.
    fn into_java(self) -> (r: JavaValue)
        ensures
            r@ == self.projection(),
    ;
}

/// An absent value is the foreign null reference; a present one is projected as it is.
impl<T: IntoJava> IntoJava for Option<T> {
    open spec fn projection(self) -> JValue {
        match self {
            Some(data) => data.projection(),
            None => JValue::Null,
        }
    }

    fn into_java(self) -> (r: JavaValue) {
        match self {
            Some(data) => data.into_java(),
            None => JavaValue::Null,
        }
    }
}

/// Text becomes a foreign string with the same characters.
impl IntoJava for String {
    open spec fn projection(self) -> JValue {
        JValue::Text(self@)
    }

    fn into_java(self) -> (r: JavaValue) {
        JavaValue::Text(self)
    }
}

/// A vector becomes a foreign list of its projected elements, in their order.
impl<T: IntoJava> IntoJava for Vec<T> {
    open spec fn projection(self) -> JValue {
        JValue::List(self@.map_values(|e: T| e.projection()))
    }

    fn into_java(self) -> (r: JavaValue) {
        let ghost all = self@;
        let mut rest = self;
        let mut out: Vec<JavaValue> = Vec::new();
        while rest.len() > 0
            invariant
                out@.len() + rest@.len() == all.len(),
                rest@ == all.subrange(out@.len() as int, all.len() as int),
                forall|i: int| 0 <= i < out@.len() ==> (#[trigger] out@[i])@ == all[i].projection(),
            decreases rest@.len(),
        {
            let ghost k = out@.len() as int;
            let element = rest.remove(0);
            assert(element == all[k]);
            let projected = element.into_java();
            out.push(projected);
            assert(rest@ =~= all.subrange(k + 1, all.len() as int));
        }
        proof {
            lemma_views_equal(out@, all.map_values(|e: T| e.projection()));
        }
        JavaValue::list(out)
    }
}

/// A byte slice becomes a foreign byte array holding the same bytes.
impl<'a> IntoJava for &'a [u8] {
    open spec fn projection(self) -> JValue {
        JValue::Bytes(self@)
    }

    fn into_java(self) -> (r: JavaValue) {
        JavaValue::Bytes(slice_to_vec(self))
    }
}

/// An absent value projects to the foreign null reference, and a present one to
/// exactly what the value itself projects to.
pub proof fn lemma_option_projection<T: IntoJava>(o: Option<T>)
    ensures
        o is None ==> o.projection() == JValue::Null,
        o matches Some(v) ==> o.projection() == v.projection(),
{
}

/// A vector projects to a foreign list with as many elements, the i-th of which
/// is the projection of the vector's i-th element.
pub proof fn lemma_list_projection<T: IntoJava>(s: Vec<T>)
    ensures
        s.projection() is List,
        s.projection()->List_0.len() == s@.len(),
        forall|i: int| 0 <= i < s@.len() ==> s.projection()->List_0[i] == (#[trigger] s@[i]).projection(),
{
}

} // verus!
