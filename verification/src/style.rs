//! The styled-node interface that layout consumes: a display classification,
//! an ordered list of children, and property lookup with the two-level
//! fallback chain (specific property, then shorthand, then a default).

use vstd::prelude::*;
use crate::css::{Value, ValueModel};

verus! {

broadcast use vstd::std_specs::vec::axiom_vec_index_decreases;

/// How a node takes part in layout.
#[derive(Clone, Copy, PartialEq, Eq, Structural, Debug)]
pub enum Display {
    Block,
    Inline,
    DisplayNone,
}

/// One resolved property: a name and its value.
pub struct Prop {
    pub name: String,
    pub value: Value,
}

/// The mathematical shadow of [`Prop`].
pub struct PropModel {
    pub name: Seq<char>,
    pub value: ValueModel,
}

impl View for Prop {
    type V = PropModel;

    open spec fn view(&self) -> PropModel {
        PropModel { name: self.name@, value: self.value@ }
    }
}

/// The resolved style of one node: its specified properties, in order.
/// When a name occurs twice, the first entry wins.
pub struct Style {
    pub props: Vec<Prop>,
}

impl View for Style {
    type V = Seq<PropModel>;

    open spec fn view(&self) -> Seq<PropModel> {
        self.props@.map_values(|p: Prop| p@)
    }
}

/// A node of the styled document tree.
pub struct StyledNode {
    pub style: Style,
    pub display: Display,
    pub children: Vec<StyledNode>,
}

/// The mathematical shadow of [`StyledNode`].
pub struct NodeModel {
    pub props: Seq<PropModel>,
    pub display: Display,
    pub children: Seq<NodeModel>,
}

/// The view of a styled node, taken recursively over its children.
pub open spec fn node_model(n: StyledNode) -> NodeModel
    decreases n, 0int,
{
    NodeModel {
        props: n.style@,
        display: n.display,
        children: node_models_from(n.children, 0),
    }
}

/// The views of the nodes of `cs` from index `i` on, in order.
pub open spec fn node_models_from(cs: Vec<StyledNode>, i: int) -> Seq<NodeModel>
    decreases cs, cs.len() - i + 1,
{
    if i < 0 || i >= cs.len() {
        seq![]
    } else {
        seq![node_model(cs[i])] + node_models_from(cs, i + 1)
    }
}

/// How `node_models_from` indexes into `cs`: entry `j - i` is the view of
/// node `j`.
pub proof fn lemma_node_models_from(cs: Vec<StyledNode>, i: int)
    requires
        0 <= i <= cs.len(),
    ensures
        node_models_from(cs, i).len() == cs.len() - i,
        forall|j: int| i <= j < cs.len() ==> node_models_from(cs, i)[j - i] == node_model(cs[j]),
    decreases cs.len() - i,
{
    if i < cs.len() {
        lemma_node_models_from(cs, i + 1);
    }
}

impl View for StyledNode {
    type V = NodeModel;

    open spec fn view(&self) -> NodeModel {
        node_model(*self)
    }
}

/// The value of the named property, if the style specifies it: the first
/// entry of that name, searched from index `i` on.
pub open spec fn spec_value_from(props: Seq<PropModel>, name: Seq<char>, i: int) -> Option<ValueModel>
    decreases props.len() - i,
{
    if i < 0 || i >= props.len() {
        Option::None
    } else if props[i].name == name {
        Option::Some(props[i].value)
    } else {
        spec_value_from(props, name, i + 1)
    }
}

/// The value of the named property, if the style specifies it.
pub open spec fn spec_value(props: Seq<PropModel>, name: Seq<char>) -> Option<ValueModel> {
    spec_value_from(props, name, 0)
}

/// Property lookup with the two-level fallback chain: the specific property's
/// value if present, else the shorthand's value if present, else the default.
pub open spec fn spec_lookup(
    props: Seq<PropModel>,
    name: Seq<char>,
    shorthand: Seq<char>,
    default: ValueModel,
) -> ValueModel {
    match spec_value(props, name) {
        Option::Some(v) => v,
        Option::None => match spec_value(props, shorthand) {
            Option::Some(v) => v,
            Option::None => default,
        },
    }
}

impl Style {
    /// The value of the named property, if this style specifies it.
    pub fn value(&self, name: &str) -> (r: Option<&Value>)
        ensures
            match r {
                Option::Some(v) => spec_value(self@, name@) == Option::Some(v@),
                Option::None => spec_value(self@, name@) is None,
            },
    {
        let n = self.props.len();
        let mut i: usize = 0;
        while i < n
            invariant
                i <= n,
                n == self.props.len(),
                spec_value(self@, name@) == spec_value_from(self@, name@, i as int),
            decreases n - i,
        {
            let p = &self.props[i];
            if crate::css::str_eq(p.name.as_str(), name) {
                return Option::Some(&p.value);
            }
            i = i + 1;
        }
        Option::None
    }

    /// Property lookup per the fallback chain: `name`, then `shorthand`,
    /// then `default`.
    pub fn lookup<'a>(&'a self, name: &str, shorthand: &str, default: &'a Value) -> (r: &'a Value)
        ensures
            r@ == spec_lookup(self@, name@, shorthand@, default@),
    {
        match self.value(name) {
            Option::Some(v) => v,
            Option::None => match self.value(shorthand) {
                Option::Some(v) => v,
                Option::None => default,
            },
        }
    }

    /// A style equal to this one, usable where an owned copy is needed.
    pub fn duplicate(&self) -> (r: Style)
        ensures
            r@ == self@,
    {
        let n = self.props.len();
        let mut props: Vec<Prop> = Vec::new();
        let mut i: usize = 0;
        while i < n
            invariant
                i <= n,
                n == self.props.len(),
                props@.len() == i,
                forall|j: int| 0 <= j < i ==> props@[j]@ == self.props@[j]@,
            decreases n - i,
        {
            let p = &self.props[i];
            props.push(Prop { name: p.name.clone(), value: p.value.duplicate() });
            i = i + 1;
        }
        let r = Style { props };
        proof {
            assert(r@ =~= self@);
        }
        r
    }
}

impl StyledNode {
    /// The node's display classification.
    pub fn display(&self) -> (r: Display)
        ensures
            r == self@.display,
    {
        self.display
    }

    /// The value of the named property, if this node's style specifies it.
    pub fn value(&self, name: &str) -> (r: Option<&Value>)
        ensures
            match r {
                Option::Some(v) => spec_value(self@.props, name@) == Option::Some(v@),
                Option::None => spec_value(self@.props, name@) is None,
            },
    {
        self.style.value(name)
    }

    /// Property lookup per the fallback chain: `name`, then `shorthand`,
    /// then `default`.
    pub fn lookup<'a>(&'a self, name: &str, shorthand: &str, default: &'a Value) -> (r: &'a Value)
        ensures
            r@ == spec_lookup(self@.props, name@, shorthand@, default@),
    {
        self.style.lookup(name, shorthand, default)
    }
}

} // verus!
