//! Classification of a node's current evaluated shape from its raw type tag.
use vstd::prelude::*;

verus! {

/// Raw tag of a node that has not been forced yet.
pub const NIX_TYPE_THUNK: u32 = 0;
/// Raw tag of an integer.
pub const NIX_TYPE_INT: u32 = 1;
/// Raw tag of a float.
pub const NIX_TYPE_FLOAT: u32 = 2;
/// Raw tag of a boolean.
pub const NIX_TYPE_BOOL: u32 = 3;
/// Raw tag of a string.
pub const NIX_TYPE_STRING: u32 = 4;
/// Raw tag of a path.
pub const NIX_TYPE_PATH: u32 = 5;
/// Raw tag of `null`.
pub const NIX_TYPE_NULL: u32 = 6;
/// Raw tag of an attribute set.
pub const NIX_TYPE_ATTRS: u32 = 7;
/// Raw tag of a list.
pub const NIX_TYPE_LIST: u32 = 8;
/// Raw tag of a function.
pub const NIX_TYPE_FUNCTION: u32 = 9;
/// Raw tag of an external value.
pub const NIX_TYPE_EXTERNAL: u32 = 10;

/// The shape of a value that has been evaluated to at least weak head normal form.
#[derive(PartialEq, Eq, Structural, Debug)]
pub enum ValueType {
    /// An attribute set.
    AttrSet,
    /// A boolean.
    Bool,
    /// A mostly opaque value supplied by a plugin or a linking application.
    External,
    /// A floating-point number.
    Float,
    /// A function.
    Function,
    /// An integer.
    Int,
    /// A list.
    List,
    /// `null`.
    Null,
    /// A path.
    Path,
    /// A string.
    String,
    /// A shape that this library does not know, from a newer evaluator.
    Unknown,
}

/// The raw tag of each known shape; `Unknown` has none.
pub open spec fn raw_tag_of(k: ValueType) -> Option<u32> {
    match k {
        ValueType::AttrSet => Some(NIX_TYPE_ATTRS),
        ValueType::Bool => Some(NIX_TYPE_BOOL),
        ValueType::External => Some(NIX_TYPE_EXTERNAL),
        ValueType::Float => Some(NIX_TYPE_FLOAT),
        ValueType::Function => Some(NIX_TYPE_FUNCTION),
        ValueType::Int => Some(NIX_TYPE_INT),
        ValueType::List => Some(NIX_TYPE_LIST),
        ValueType::Null => Some(NIX_TYPE_NULL),
        ValueType::Path => Some(NIX_TYPE_PATH),
        ValueType::String => Some(NIX_TYPE_STRING),
        ValueType::Unknown => None,
    }
}

/// Whether `raw` is one of the tags this library knows, the thunk tag included.
pub open spec fn is_known_tag(raw: u32) -> bool {
    raw <= NIX_TYPE_EXTERNAL
}

/// What a raw tag says of a node: `None` for a thunk, the shape whose tag it
/// is, or `Unknown` for a tag outside the known set.
pub open spec fn classify(raw: u32) -> Option<ValueType> {
    if raw == NIX_TYPE_THUNK {
        None
    } else if exists|k: ValueType| raw_tag_of(k) == Some(raw) {
        Some(choose|k: ValueType| raw_tag_of(k) == Some(raw))
    } else {
        Some(ValueType::Unknown)
    }
}

impl ValueType {
    /// Classify a raw type tag.
    ///
    /// Returns `None` while the node is still a thunk, and
    /// `Some(ValueType::Unknown)` for a tag this library does not recognise.
    pub fn from_raw(raw: u32) -> (r: Option<ValueType>)
        ensures
            r == classify(raw),
    {
        let r = match raw {
            NIX_TYPE_ATTRS => Some(ValueType::AttrSet),
            NIX_TYPE_BOOL => Some(ValueType::Bool),
            NIX_TYPE_EXTERNAL => Some(ValueType::External),
            NIX_TYPE_FLOAT => Some(ValueType::Float),
            NIX_TYPE_FUNCTION => Some(ValueType::Function),
            NIX_TYPE_INT => Some(ValueType::Int),
            NIX_TYPE_LIST => Some(ValueType::List),
            NIX_TYPE_NULL => Some(ValueType::Null),
            NIX_TYPE_PATH => Some(ValueType::Path),
            NIX_TYPE_STRING => Some(ValueType::String),
            NIX_TYPE_THUNK => None,
            _ => Some(ValueType::Unknown),
        };
        proof {
            lemma_tags_distinct();
            if raw != NIX_TYPE_THUNK && is_known_tag(raw) {
                assert(raw_tag_of(r.unwrap()) == Some(raw));
            } else if raw != NIX_TYPE_THUNK {
                assert forall|k: ValueType| raw_tag_of(k) != Some(raw) by {}
            }
        }
        r
    }
}

/// Different shapes have different raw tags, and none of them is the thunk tag.
pub proof fn lemma_tags_distinct()
    ensures
        forall|a: ValueType, b: ValueType|
            #![trigger raw_tag_of(a), raw_tag_of(b)]
            raw_tag_of(a) is Some && raw_tag_of(a) == raw_tag_of(b) ==> a == b,
        forall|k: ValueType| #[trigger] raw_tag_of(k) != Some(NIX_TYPE_THUNK),
{
}

/// Classification law: the tag of a known shape classifies as that shape,
/// the thunk tag as no shape at all, and any tag outside the known set as
/// `Unknown`.
pub proof fn lemma_classification(k: ValueType, raw: u32)
    ensures
        raw_tag_of(k) matches Some(t) ==> classify(t) == Some(k),
        classify(NIX_TYPE_THUNK) is None,
        !is_known_tag(raw) ==> classify(raw) == Some(ValueType::Unknown),
{
    lemma_tags_distinct();
    if let Some(t) = raw_tag_of(k) {
        assert(raw_tag_of(k) == Some(t));
    }
    if !is_known_tag(raw) {
        assert forall|j: ValueType| raw_tag_of(j) != Some(raw) by {}
    }
}

/// Whether a node's tag may go from `before` to `after` between two reads:
/// only a thunk changes, when it is forced, and it may take any tag then.
pub open spec fn tag_step(before: u32, after: u32) -> bool {
    before == after || before == NIX_TYPE_THUNK
}

/// Whether `tags`, the tags one node shows to successive reads through any of
/// its handles, changed only by forcing.
pub open spec fn forced_only(tags: Seq<u32>) -> bool {
    forall|i: int| 0 <= i < tags.len() - 1 ==> #[trigger] tag_step(tags[i], tags[i + 1])
}

/// Once a node classifies as some shape, every later read of its tag,
/// through whichever handle, classifies it as that same shape: it never goes
/// back to being a thunk.
pub proof fn lemma_classification_stable(tags: Seq<u32>, i: int, j: int)
    requires
        forced_only(tags),
        0 <= i <= j < tags.len(),
        classify(tags[i]) is Some,
    ensures
        classify(tags[j]) == classify(tags[i]),
    decreases j - i,
{
    if i < j {
        lemma_classification_stable(tags, i, j - 1);
        assert(tag_step(tags[j - 1], tags[(j - 1) + 1]));
    }
}

} // verus!
