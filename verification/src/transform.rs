//! The transform engine: one stateful walker per module, parameterized by the
//! loaded settings.
//!
//! The walk is a full depth-first, left-to-right descent that reaches every
//! expression position; whenever it meets a JSX element or fragment it sets
//! the matching usage flag. The flags are monotonic: a visit may set them,
//! never clear them. Only after the whole module has been walked does the
//! engine decide: if either flag is set, one import declaration is built —
//! `createElement` first iff elements were seen, `Fragment` second iff
//! fragments were seen, order fixed by specifier kind, not encounter order —
//! and inserted as the new first item. JSX nodes themselves are never
//! rewritten here, and no existing import is inspected or merged.

use vstd::prelude::*;

use crate::ast::{
    has_jsx_element, has_jsx_fragment, seq_has_element, seq_has_fragment, uses_jsx, ImportDecl,
    ImportSpecifier, Module, Node,
};
use crate::config::{load_config, resolve_import_source, spec_import_source, Config, ConfigError};
use crate::config::json_str_field;

verus! {

/// Whether `sp` binds exactly the local name `name`, with no alias.
pub open spec fn is_named_specifier(sp: ImportSpecifier, name: Seq<char>) -> bool {
    &&& sp.local@ == name
    &&& sp.imported is None
}

/// Whether `specs` is exactly the specifier list the transform injects for
/// the usage flags `saw_element` and `saw_fragment`: `createElement` iff
/// elements were seen, then `Fragment` iff fragments were seen.
pub open spec fn injected_specifiers(
    specs: Seq<ImportSpecifier>,
    saw_element: bool,
    saw_fragment: bool,
) -> bool {
    &&& specs.len() == (if saw_element { 1int } else { 0int }) + (if saw_fragment { 1int } else { 0int })
    &&& saw_element ==> is_named_specifier(specs[0], "createElement"@)
    &&& saw_fragment ==> is_named_specifier(
        specs[if saw_element { 1int } else { 0int }],
        "Fragment"@,
    )
}

/// Whether `item` is exactly the import declaration the transform injects for
/// the usage flags `saw_element` and `saw_fragment` and the module source
/// `src`.
pub open spec fn is_injected_import(
    item: Node,
    saw_element: bool,
    saw_fragment: bool,
    src: Seq<char>,
) -> bool {
    match item {
        Node::Import(d) => d.src@ == src && injected_specifiers(
            d.specifiers@,
            saw_element,
            saw_fragment,
        ),
        _ => false,
    }
}

/// What one run of the transform does to a module's item sequence: where the
/// items use no JSX they are left identical; where they do, exactly one
/// import declaration for the seen usage and the source `src` is prepended
/// and every existing item shifts down by one position.
pub open spec fn transform_rel(pre: Seq<Node>, post: Seq<Node>, src: Seq<char>) -> bool {
    if uses_jsx(pre) {
        &&& post.len() == pre.len() + 1
        &&& post.skip(1) == pre
        &&& is_injected_import(post[0], seq_has_element(pre), seq_has_fragment(pre), src)
    } else {
        post == pre
    }
}

/// Per-invocation transform state: the two monotonic usage flags, both
/// initially false, and the module source resolved once before the walk
/// begins.
pub struct TransformVisitor {
    pub has_jsx_element: bool,
    pub has_jsx_fragment: bool,
    pub import_source: String,
}

/// Extending the walked prefix of `s` by one node extends what the usage
/// flags have seen by exactly that node's own usage.
proof fn lemma_seq_has_take_step(s: Seq<Node>, i: int)
    requires
        0 <= i < s.len(),
    ensures
        seq_has_element(s.take(i + 1)) == (seq_has_element(s.take(i)) || has_jsx_element(s[i])),
        seq_has_fragment(s.take(i + 1)) == (seq_has_fragment(s.take(i)) || has_jsx_fragment(s[i])),
{
    let t0 = s.take(i);
    let t1 = s.take(i + 1);
    assert(t1[i] == s[i]);
    if seq_has_element(t1) {
        let j = choose|j: int| 0 <= j < t1.len() && has_jsx_element(t1[j]);
        if j < i {
            assert(t0[j] == t1[j]);
            assert(seq_has_element(t0));
        }
    }
    if seq_has_element(t0) {
        let j = choose|j: int| 0 <= j < t0.len() && has_jsx_element(t0[j]);
        assert(t1[j] == t0[j]);
        assert(seq_has_element(t1));
    }
    if seq_has_fragment(t1) {
        let j = choose|j: int| 0 <= j < t1.len() && has_jsx_fragment(t1[j]);
        if j < i {
            assert(t0[j] == t1[j]);
            assert(seq_has_fragment(t0));
        }
    }
    if seq_has_fragment(t0) {
        let j = choose|j: int| 0 <= j < t0.len() && has_jsx_fragment(t0[j]);
        assert(t1[j] == t0[j]);
        assert(seq_has_fragment(t1));
    }
}

impl TransformVisitor {
    /// Fresh per-invocation state: both usage flags start false, the module
    /// source is fixed for the whole walk.
    pub fn new(import_source: String) -> (v: TransformVisitor)
        ensures
            !v.has_jsx_element,
            !v.has_jsx_fragment,
            v.import_source == import_source,
    {
        TransformVisitor { has_jsx_element: false, has_jsx_fragment: false, import_source }
    }

    /// Visit a JSX element: record that an element was seen, then keep
    /// descending into its children, so deeper JSX can still set the other
    /// flag. The element itself is left as found.
    pub fn visit_mut_jsx_element(&mut self, n: &Vec<Node>)
        ensures
            final(self).import_source == old(self).import_source,
            final(self).has_jsx_element,
            final(self).has_jsx_fragment == (old(self).has_jsx_fragment || seq_has_fragment(n@)),
            old(self).has_jsx_fragment ==> final(self).has_jsx_fragment,
        decreases *n, 1int,
    {
        self.has_jsx_element = true;
        self.visit_children(n);
    }

    /// Visit a JSX fragment: record that a fragment was seen, then keep
    /// descending into its children. The fragment itself is left as found.
    pub fn visit_mut_jsx_fragment(&mut self, n: &Vec<Node>)
        ensures
            final(self).import_source == old(self).import_source,
            final(self).has_jsx_fragment,
            final(self).has_jsx_element == (old(self).has_jsx_element || seq_has_element(n@)),
            old(self).has_jsx_element ==> final(self).has_jsx_element,
        decreases *n, 1int,
    {
        self.has_jsx_fragment = true;
        self.visit_children(n);
    }

    /// Dispatch on one node's kind: the two JSX kinds set their flag and
    /// descend, every other kind falls back to descending into its children
    /// unchanged (an import declaration has none).
    fn visit_node(&mut self, n: &Node)
        ensures
            final(self).import_source == old(self).import_source,
            final(self).has_jsx_element == (old(self).has_jsx_element || has_jsx_element(*n)),
            final(self).has_jsx_fragment == (old(self).has_jsx_fragment || has_jsx_fragment(*n)),
        decreases *n, 2int,
    {
        match n {
            Node::JsxElement(children) => self.visit_mut_jsx_element(children),
            Node::JsxFragment(children) => self.visit_mut_jsx_fragment(children),
            Node::Import(_) => {},
            Node::Other(children) => self.visit_children(children),
        }
    }

    /// Walk a child list left to right, accumulating usage flags.
    fn visit_children(&mut self, nodes: &Vec<Node>)
        ensures
            final(self).import_source == old(self).import_source,
            final(self).has_jsx_element == (old(self).has_jsx_element || seq_has_element(nodes@)),
            final(self).has_jsx_fragment == (old(self).has_jsx_fragment || seq_has_fragment(
                nodes@,
            )),
        decreases *nodes, 0int,
    {
        let ghost entry = *self;
        let mut i: usize = 0;
        while i < nodes.len()
            invariant
                i <= nodes.len(),
                self.import_source == entry.import_source,
                self.has_jsx_element == (entry.has_jsx_element || seq_has_element(
                    nodes@.take(i as int),
                )),
                self.has_jsx_fragment == (entry.has_jsx_fragment || seq_has_fragment(
                    nodes@.take(i as int),
                )),
            decreases nodes@.len() - i,
        {
            self.visit_node(&nodes[i]);
            proof {
                lemma_seq_has_take_step(nodes@, i as int);
            }
            i = i + 1;
        }
        proof {
            assert(nodes@.take(nodes@.len() as int) =~= nodes@);
        }
    }

    /// Walk every top-level item, children first; then, if any JSX usage was
    /// seen, build the import declaration for exactly the flags that are set
    /// and insert it at index 0, shifting every existing item down by one.
    /// Where nothing was seen the item list is left identical.
    pub fn visit_mut_module_items(&mut self, n: &mut Vec<Node>)
        ensures
            final(self).import_source == old(self).import_source,
            final(self).has_jsx_element == (old(self).has_jsx_element || seq_has_element(
                old(n)@,
            )),
            final(self).has_jsx_fragment == (old(self).has_jsx_fragment || seq_has_fragment(
                old(n)@,
            )),
            !(final(self).has_jsx_element || final(self).has_jsx_fragment) ==> final(n)@ == old(
                n,
            )@,
            (final(self).has_jsx_element || final(self).has_jsx_fragment) ==> {
                &&& final(n)@.len() == old(n)@.len() + 1
                &&& final(n)@.skip(1) == old(n)@
                &&& is_injected_import(
                    final(n)@[0],
                    final(self).has_jsx_element,
                    final(self).has_jsx_fragment,
                    final(self).import_source@,
                )
            },
    {
        self.visit_children(n);

        if self.has_jsx_element || self.has_jsx_fragment {
            let decl = build_import_decl(
                self.has_jsx_element,
                self.has_jsx_fragment,
                &self.import_source,
            );
            n.insert(0, Node::Import(decl));
            proof {
                assert(n@.skip(1) =~= old(n)@);
            }
        }
    }
}

impl Default for TransformVisitor {
    /// Fresh per-invocation state with the default module source, `"react"`.
    fn default() -> (v: TransformVisitor)
        ensures
            !v.has_jsx_element,
            !v.has_jsx_fragment,
            v.import_source@ == "react"@,
    {
        TransformVisitor {
            has_jsx_element: false,
            has_jsx_fragment: false,
            import_source: "react".to_owned(),
        }
    }
}

/// Build the import declaration to inject: `createElement` first iff elements
/// were seen, `Fragment` second iff fragments were seen, bound to `src`, no
/// aliasing.
fn build_import_decl(saw_element: bool, saw_fragment: bool, src: &String) -> (d: ImportDecl)
    ensures
        d.src@ == src@,
        injected_specifiers(d.specifiers@, saw_element, saw_fragment),
{
    let mut specifiers: Vec<ImportSpecifier> = Vec::new();
    if saw_element {
        specifiers.push(
            ImportSpecifier { local: "createElement".to_owned(), imported: None },
        );
    }
    if saw_fragment {
        specifiers.push(ImportSpecifier { local: "Fragment".to_owned(), imported: None });
    }
    ImportDecl { specifiers, src: src.clone() }
}

/// Transform one module under the loaded settings: walk it once, then, iff
/// any JSX element or fragment occurs anywhere in it, prepend one import
/// declaration for the seen usage, bound to the configured source.
pub fn transform(module: &mut Module, config: &Config)
    ensures
        transform_rel(old(module).items@, final(module).items@, spec_import_source(*config)),
{
    let source = resolve_import_source(config);
    let mut visitor = TransformVisitor::new(source);
    visitor.visit_mut_module_items(&mut module.items);
}

/// Run the whole stage on one module: load the configuration from the raw
/// payload the host supplied, and on success transform the module under it.
/// Configuration failures are fatal: the module is not returned.
pub fn process_transform(module: Module, config_json: Option<&str>) -> (r: Result<
    Module,
    ConfigError,
>)
    ensures
        match config_json {
            None => r == Err::<Module, ConfigError>(ConfigError::MissingPayload),
            Some(p) => match json_str_field(p@, "importSource"@) {
                None => r == Err::<Module, ConfigError>(ConfigError::InvalidConfig),
                Some(field) => r matches Ok(m) && transform_rel(
                    module.items@,
                    m.items@,
                    crate::config::resolved_field_source(field),
                ),
            },
        },
{
    let config = match load_config(config_json) {
        Ok(c) => c,
        Err(e) => {
            return Err(e);
        },
    };
    let mut module = module;
    transform(&mut module, &config);
    Ok(module)
}

/// Prepending an item in which no JSX occurs leaves both usage facts of the
/// sequence as they were.
proof fn lemma_prepend_non_jsx(pre: Seq<Node>, post: Seq<Node>)
    requires
        post.len() == pre.len() + 1,
        post.skip(1) == pre,
        !has_jsx_element(post[0]),
        !has_jsx_fragment(post[0]),
    ensures
        seq_has_element(post) == seq_has_element(pre),
        seq_has_fragment(post) == seq_has_fragment(pre),
{
    if seq_has_element(pre) {
        let j = choose|j: int| 0 <= j < pre.len() && has_jsx_element(pre[j]);
        assert(post[j + 1] == post.skip(1)[j]);
        assert(has_jsx_element(post[j + 1]));
    }
    if seq_has_element(post) {
        let j = choose|j: int| 0 <= j < post.len() && has_jsx_element(post[j]);
        assert(j > 0);
        assert(pre[j - 1] == post.skip(1)[j - 1]);
        assert(has_jsx_element(pre[j - 1]));
    }
    if seq_has_fragment(pre) {
        let j = choose|j: int| 0 <= j < pre.len() && has_jsx_fragment(pre[j]);
        assert(post[j + 1] == post.skip(1)[j]);
        assert(has_jsx_fragment(post[j + 1]));
    }
    if seq_has_fragment(post) {
        let j = choose|j: int| 0 <= j < post.len() && has_jsx_fragment(post[j]);
        assert(j > 0);
        assert(pre[j - 1] == post.skip(1)[j - 1]);
        assert(has_jsx_fragment(pre[j - 1]));
    }
}

/// Law: the transform is not idempotent. An injected import declaration holds
/// no JSX, so a module that used JSX still uses it after one run; a second
/// run over the transformed items therefore prepends a second, identical
/// import declaration — nothing is merged or deduplicated — and the original
/// items end up shifted down by two positions.
pub proof fn lemma_transform_not_idempotent(
    items0: Seq<Node>,
    items1: Seq<Node>,
    items2: Seq<Node>,
    src: Seq<char>,
)
    requires
        uses_jsx(items0),
        transform_rel(items0, items1, src),
        transform_rel(items1, items2, src),
    ensures
        items2.len() == items0.len() + 2,
        is_injected_import(items2[0], seq_has_element(items0), seq_has_fragment(items0), src),
        is_injected_import(items2[1], seq_has_element(items0), seq_has_fragment(items0), src),
        items2.skip(2) == items0,
{
    assert(!has_jsx_element(items1[0]) && !has_jsx_fragment(items1[0]));
    lemma_prepend_non_jsx(items0, items1);
    assert(uses_jsx(items1));
    assert(items2[1] == items2.skip(1)[0]);
    assert(items2.skip(2) =~= items0) by {
        assert forall|i: int| 0 <= i < items2.len() - 2 implies items2.skip(2)[i] == items0[i] by {
            assert(items2.skip(2)[i] == items2[i + 2]);
            assert(items2.skip(1)[i + 1] == items2[i + 2]);
            assert(items1.skip(1)[i] == items1[i + 1]);
        }
    }
}

} // verus!
