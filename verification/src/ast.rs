//! The syntax-tree model the transform works on.
//!
//! A module is an ordered sequence of top-level items; order is significant,
//! and index 0 means "before everything else in the unit". Nodes form a closed
//! set of kinds: the two JSX kinds the transform cares about, import
//! declarations (the kind it injects), and a single fallback kind for every
//! other construct, which only carries its child expression positions so a
//! full-tree walk can descend through it.

use vstd::prelude::*;

verus! {

/// A named binding introduced by an import declaration: the locally bound
/// name, paired with the optional "as originally named" alias. The transform
/// itself never uses aliasing: it injects specifiers whose local name equals
/// the required symbol name.
pub struct ImportSpecifier {
    pub local: String,
    pub imported: Option<String>,
}

/// A module item binding a set of named specifiers to one module-source
/// string.
pub struct ImportDecl {
    pub specifiers: Vec<ImportSpecifier>,
    pub src: String,
}

/// One syntax-tree node. JSX elements and fragments carry every nested
/// expression position (attribute values as well as children) in source
/// order; `Other` stands for any non-JSX, non-import construct and likewise
/// carries its nested expression positions, so the default traversal
/// behaviour — descend into children unchanged — is a single fallback arm.
pub enum Node {
    JsxElement(Vec<Node>),
    JsxFragment(Vec<Node>),
    Import(ImportDecl),
    Other(Vec<Node>),
}

/// A parsed module: an ordered sequence of top-level items.
pub struct Module {
    pub items: Vec<Node>,
}

/// Whether a JSX element node occurs anywhere in `n`, itself included.
pub open spec fn has_jsx_element(n: Node) -> bool
    decreases n,
{
    match n {
        Node::JsxElement(_) => true,
        Node::JsxFragment(children) => exists|i: int|
            0 <= i < children@.len() && has_jsx_element(children@[i]),
        Node::Import(_) => false,
        Node::Other(children) => exists|i: int|
            0 <= i < children@.len() && has_jsx_element(children@[i]),
    }
}

/// Whether a JSX fragment node occurs anywhere in `n`, itself included.
pub open spec fn has_jsx_fragment(n: Node) -> bool
    decreases n,
{
    match n {
        Node::JsxElement(children) => exists|i: int|
            0 <= i < children@.len() && has_jsx_fragment(children@[i]),
        Node::JsxFragment(_) => true,
        Node::Import(_) => false,
        Node::Other(children) => exists|i: int|
            0 <= i < children@.len() && has_jsx_fragment(children@[i]),
    }
}

/// Whether a JSX element occurs anywhere under any node of `s`.
pub open spec fn seq_has_element(s: Seq<Node>) -> bool {
    exists|i: int| 0 <= i < s.len() && has_jsx_element(s[i])
}

/// Whether a JSX fragment occurs anywhere under any node of `s`.
pub open spec fn seq_has_fragment(s: Seq<Node>) -> bool {
    exists|i: int| 0 <= i < s.len() && has_jsx_fragment(s[i])
}

/// Whether any JSX syntax at all occurs under any node of `s`: exactly the
/// condition under which the transform injects an import.
pub open spec fn uses_jsx(s: Seq<Node>) -> bool {
    seq_has_element(s) || seq_has_fragment(s)
}

} // verus!
