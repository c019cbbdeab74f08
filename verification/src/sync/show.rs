//! Debug rendering of container snapshots.
//!
//! The containers cannot carry std's formatting traits (Verus does not
//! accept a `Formatter`), so each offers a method that renders a snapshot of
//! its contents to a `String`, in the shape std's own containers use.

use vstd::prelude::*;
use vstd::string::*;

verus! {

/// Relies on std's formatting machinery (`format!` over `Debug`) to render
/// one value the way std would.
#[verifier::external_body]
pub(crate) fn debug_of<T: core::fmt::Debug>(t: &T) -> String {
    format!("{:?}", t)
}

/// Renders a pair snapshot the way std renders a map: `{k1: v1, k2: v2}`.
pub(crate) fn render_map_doc<K: core::fmt::Debug, V: core::fmt::Debug>(
    pairs: &Vec<(K, V)>,
) -> String {
    let mut out = String::new();
    out.append("{");
    let n = pairs.len();
    let mut i: usize = 0;
    while i < n
        invariant
            n == pairs@.len(),
            i <= n,
        decreases n - i,
    {
        if i > 0 {
            out.append(", ");
        }
        let key_text = debug_of(&pairs[i].0);
        out.append(key_text.as_str());
        out.append(": ");
        let value_text = debug_of(&pairs[i].1);
        out.append(value_text.as_str());
        i = i + 1;
    }
    out.append("}");
    out
}

/// Renders an element snapshot the way std renders a list: `[a, b]`.
pub(crate) fn render_list_doc<V: core::fmt::Debug>(elems: &Vec<V>) -> String {
    let mut out = String::new();
    out.append("[");
    let n = elems.len();
    let mut i: usize = 0;
    while i < n
        invariant
            n == elems@.len(),
            i <= n,
        decreases n - i,
    {
        if i > 0 {
            out.append(", ");
        }
        let elem_text = debug_of(&elems[i]);
        out.append(elem_text.as_str());
        i = i + 1;
    }
    out.append("]");
    out
}

} // verus!
