use vstd::prelude::*;
use crate::block::text_eq;

verus! {

/// What a "touching" block asks about.
#[derive(Debug, Clone)]
pub enum TouchingObjectOption {
    MousePointer,
    Edge,
    Sprite(String),
}


impl TouchingObjectOption {
    /// The option a menu field names: `_mouse_`, `_edge_`, or a sprite's name.
    pub fn from_field(s: &str) -> (r: TouchingObjectOption)
        ensures
            s@ == "_mouse_"@ ==> r is MousePointer,
            s@ == "_edge_"@ ==> r is Edge,
            s@ != "_mouse_"@ && s@ != "_edge_"@ ==> (r matches TouchingObjectOption::Sprite(n)
                && n@ == s@),
    {
        proof {
            reveal_strlit("_mouse_");
            reveal_strlit("_edge_");
            assert("_mouse_"@.len() != "_edge_"@.len());
        }
        if text_eq(s, "_mouse_") {
            TouchingObjectOption::MousePointer
        } else if text_eq(s, "_edge_") {
            TouchingObjectOption::Edge
        } else {
            TouchingObjectOption::Sprite(String::from_str(s))
        }
    }

    /// The menu field that names this option.
    pub fn field(&self) -> (r: String)
        ensures
            self is MousePointer ==> r@ == "_mouse_"@,
            self is Edge ==> r@ == "_edge_"@,
            self matches TouchingObjectOption::Sprite(n) ==> r@ == n@,
    {
        match self {
            TouchingObjectOption::MousePointer => String::from_str("_mouse_"),
            TouchingObjectOption::Edge => String::from_str("_edge_"),
            TouchingObjectOption::Sprite(n) => n.clone(),
        }
    }
}

/// Whether `keys` holds `key`.
pub open spec fn holds_key(keys: Seq<String>, key: Seq<char>) -> bool {
    exists|i: int| 0 <= i < keys.len() && (#[trigger] keys[i])@ == key
}

/// The answer of a "key pressed" block choosing `option` (`any`, or a key's name), given
/// the keys the input layer reports as pressed.
pub fn key_pressed(option: &str, keys: &Vec<String>) -> (r: bool)
    ensures
        option@ == "any"@ ==> r,
        option@ != "any"@ ==> r == holds_key(keys@, option@),
{
    if text_eq(option, "any") {
        return true;
    }
    let mut i: usize = 0;
    while i < keys.len()
        invariant
            i <= keys@.len(),
            forall|j: int| 0 <= j < i ==> (#[trigger] keys@[j])@ != option@,
        decreases keys@.len() - i,
    {
        if text_eq(keys[i].as_str(), option) {
            return true;
        }
        i = i + 1;
    }
    false
}

} // verus!
