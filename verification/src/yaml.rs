//! YAML documents as plain trees.

use vstd::prelude::*;

verus! {

/// What a YAML document holds. A number is kept as the text it is printed as;
/// of a tagged value only the value under the tag is kept.
pub enum YamlTree {
    Null,
    Bool(bool),
    Number(Seq<char>),
    Text(Seq<char>),
    Sequence(Seq<YamlTree>),
    Mapping(Seq<(YamlTree, YamlTree)>),
    Tagged(Box<YamlTree>),
}

/// A YAML document in memory; [`Yaml::tree`] is what it holds.
pub enum Yaml {
    Null,
    Bool(bool),
    Number(String),
    Text(String),
    Sequence(Vec<Yaml>),
    Mapping(Vec<(Yaml, Yaml)>),
    Tagged(Box<Yaml>),
}

impl Yaml {
    pub open spec fn tree(self) -> YamlTree
        decreases self,
    {
        match self {
            Yaml::Null => YamlTree::Null,
            Yaml::Bool(b) => YamlTree::Bool(b),
            Yaml::Number(s) => YamlTree::Number(s@),
            Yaml::Text(s) => YamlTree::Text(s@),
            Yaml::Sequence(items) => YamlTree::Sequence(
                Seq::new(items@.len(), |i: int| if 0 <= i < items@.len() { items@[i].tree() } else { YamlTree::Null }),
            ),
            Yaml::Mapping(entries) => YamlTree::Mapping(
                Seq::new(
                    entries@.len(),
                    |i: int|
                        if 0 <= i < entries@.len() {
                            (entries@[i].0.tree(), entries@[i].1.tree())
                        } else {
                            (YamlTree::Null, YamlTree::Null)
                        },
                ),
            ),
            Yaml::Tagged(inner) => YamlTree::Tagged(Box::new(inner.tree())),
        }
    }
}

/// `serde_yaml::Value`, the YAML value of the `serde_yaml` crate.
#[verifier::external_type_specification]
#[verifier::external_body]
pub struct ExValue(serde_yaml::Value);

/// What a `serde_yaml::Value` holds.
pub uninterp spec fn value_tree(value: serde_yaml::Value) -> YamlTree;

/// What `serde_yaml::from_str` makes of a text: the one document in it, or the
/// message of the error that it reports.
pub uninterp spec fn yaml_document(contents: Seq<char>) -> Result<YamlTree, Seq<char>>;

/// One level of a `serde_yaml::Value`, with the values below it still opaque.
pub enum YamlNode<'a> {
    Null,
    Bool(bool),
    Number(String),
    Text(String),
    Sequence(&'a Vec<serde_yaml::Value>),
    Mapping(Vec<(&'a serde_yaml::Value, &'a serde_yaml::Value)>),
    Tagged(&'a serde_yaml::Value),
}

impl<'a> YamlNode<'a> {
    pub open spec fn tree(self) -> YamlTree {
        match self {
            YamlNode::Null => YamlTree::Null,
            YamlNode::Bool(b) => YamlTree::Bool(b),
            YamlNode::Number(s) => YamlTree::Number(s@),
            YamlNode::Text(s) => YamlTree::Text(s@),
            YamlNode::Sequence(items) => YamlTree::Sequence(
                Seq::new(items@.len(), |i: int| value_tree(items@[i])),
            ),
            YamlNode::Mapping(entries) => YamlTree::Mapping(
                Seq::new(entries@.len(), |i: int| (value_tree(*entries@[i].0), value_tree(*entries@[i].1))),
            ),
            YamlNode::Tagged(inner) => YamlTree::Tagged(Box::new(value_tree(*inner))),
        }
    }
}

/// `serde_yaml::from_str` reads one document out of a text. Its outcome, the
/// value or the message that its error prints, depends on the text alone and is
/// named [`yaml_document`].
#[verifier::external_body]
fn parse_value(contents: &str) -> (r: Result<serde_yaml::Value, String>)
    ensures
        match r {
            Ok(value) => yaml_document(contents@) == Ok::<YamlTree, Seq<char>>(value_tree(value)),
            Err(message) => yaml_document(contents@) == Err::<YamlTree, Seq<char>>(message@),
        },
{
    serde_yaml::from_str::<serde_yaml::Value>(contents).map_err(|error| error.to_string())
}

/// Tells the variants of `serde_yaml::Value` apart: what the value holds is what
/// its variant holds. A number becomes the text that its `Display` prints; the
/// entries of a mapping come in the order of `serde_yaml::Mapping::iter`.
#[verifier::external_body]
fn open_value<'a>(value: &'a serde_yaml::Value) -> (node: YamlNode<'a>)
    ensures
        node.tree() == value_tree(*value),
{
    match value {
        serde_yaml::Value::Null => YamlNode::Null,
        serde_yaml::Value::Bool(b) => YamlNode::Bool(*b),
        serde_yaml::Value::Number(n) => YamlNode::Number(n.to_string()),
        serde_yaml::Value::String(s) => YamlNode::Text(s.clone()),
        serde_yaml::Value::Sequence(items) => YamlNode::Sequence(items),
        serde_yaml::Value::Mapping(entries) => YamlNode::Mapping(entries.iter().collect()),
        serde_yaml::Value::Tagged(tagged) => YamlNode::Tagged(&tagged.value),
    }
}

/// The plain form of a `serde_yaml::Value`.
fn plain(value: &serde_yaml::Value) -> (yaml: Yaml)
    ensures
        yaml.tree() == value_tree(*value),
    decreases value_tree(*value),
{
    let ghost whole = value_tree(*value);
    match open_value(value) {
        YamlNode::Null => Yaml::Null,
        YamlNode::Bool(b) => Yaml::Bool(b),
        YamlNode::Number(s) => Yaml::Number(s),
        YamlNode::Text(s) => Yaml::Text(s),
        YamlNode::Sequence(items) => {
            let mut list: Vec<Yaml> = Vec::new();
            let mut i: usize = 0;
            while i < items.len()
                invariant
                    whole == value_tree(*value),
                    whole is Sequence,
                    whole->Sequence_0 == Seq::new(items@.len(), |i: int| value_tree(items@[i])),
                    list@.len() == i <= items@.len(),
                    forall|j: int| 0 <= j < i ==> (#[trigger] list@[j]).tree() == value_tree(items@[j]),
                decreases items@.len() - i,
            {
                assert(whole->Sequence_0[i as int] == value_tree(items@[i as int]));
                assert(decreases_to!(whole => whole->Sequence_0));
                assert(decreases_to!(whole->Sequence_0 => whole->Sequence_0[i as int]));
                list.push(plain(&items[i]));
                i = i + 1;
            }
            let yaml = Yaml::Sequence(list);
            assert(yaml.tree()->Sequence_0 =~= whole->Sequence_0);
            yaml
        },
        YamlNode::Mapping(entries) => {
            let mut list: Vec<(Yaml, Yaml)> = Vec::new();
            let mut i: usize = 0;
            while i < entries.len()
                invariant
                    whole == value_tree(*value),
                    whole is Mapping,
                    whole->Mapping_0 == Seq::new(
                        entries@.len(),
                        |i: int| (value_tree(*entries@[i].0), value_tree(*entries@[i].1)),
                    ),
                    list@.len() == i <= entries@.len(),
                    forall|j: int| 0 <= j < i ==> (#[trigger] list@[j]).0.tree() == value_tree(*entries@[j].0)
                        && list@[j].1.tree() == value_tree(*entries@[j].1),
                decreases entries@.len() - i,
            {
                let ghost pair = whole->Mapping_0[i as int];
                assert(pair == (value_tree(*entries@[i as int].0), value_tree(*entries@[i as int].1)));
                assert(decreases_to!(whole => whole->Mapping_0));
                assert(decreases_to!(whole->Mapping_0 => whole->Mapping_0[i as int]));
                assert(decreases_to!(pair => pair.0));
                assert(decreases_to!(pair => pair.1));
                list.push((plain(entries[i].0), plain(entries[i].1)));
                i = i + 1;
            }
            let yaml = Yaml::Mapping(list);
            assert(yaml.tree()->Mapping_0 =~= whole->Mapping_0);
            yaml
        },
        YamlNode::Tagged(inner) => {
            assert(decreases_to!(whole => whole->Tagged_0));
            Yaml::Tagged(Box::new(plain(inner)))
        },
    }
}

/// Reads the one YAML document of a text.
pub fn read_yaml(contents: &str) -> (r: Result<Yaml, String>)
    ensures
        match r {
            Ok(yaml) => yaml_document(contents@) == Ok::<YamlTree, Seq<char>>(yaml.tree()),
            Err(message) => yaml_document(contents@) == Err::<YamlTree, Seq<char>>(message@),
        },
{
    match parse_value(contents) {
        Ok(value) => Ok(plain(&value)),
        Err(message) => Err(message),
    }
}

/// A document in memory holds what its variant holds, and all of it: every item
/// and every entry, in order.
pub proof fn documents_say_all_they_hold(b: bool, s: String, items: Vec<Yaml>, entries: Vec<(Yaml, Yaml)>, inner: Yaml)
    ensures
        Yaml::Null.tree() is Null,
        Yaml::Bool(b).tree() == YamlTree::Bool(b),
        Yaml::Number(s).tree() == YamlTree::Number(s@),
        Yaml::Text(s).tree() == YamlTree::Text(s@),
        Yaml::Sequence(items).tree() matches YamlTree::Sequence(list) && list.len() == items@.len() && forall|i: int|
            0 <= i < list.len() ==> #[trigger] list[i] == items@[i].tree(),
        Yaml::Mapping(entries).tree() matches YamlTree::Mapping(list) && list.len() == entries@.len() && forall|i: int|
            0 <= i < list.len() ==> #[trigger] list[i] == (entries@[i].0.tree(), entries@[i].1.tree()),
        Yaml::Tagged(Box::new(inner)).tree() == YamlTree::Tagged(Box::new(inner.tree())),
{
}

} // verus!
