//! The model of a session's metadata map: field names bound to values that
//! are strings, lists of strings, or some unsupported shape.

use vstd::prelude::*;
use crate::strmap::StrMap;
use crate::strutil::{join_comma, join_with_comma, str_views, clone_string_vec};

verus! {

/// A metadata value as the engine reads it.
#[derive(Debug)]
pub enum MetaValue {
    /// A plain string.
    Str(String),
    /// A list of strings.
    List(Vec<String>),
    /// Any other shape; it only ever renders as a fixed placeholder.
    Other,
}

/// The mathematical shape of a metadata value.
pub enum MetaModel {
    Str(Seq<char>),
    List(Seq<Seq<char>>),
    Other,
}

impl View for MetaValue {
    type V = MetaModel;

    open spec fn view(&self) -> MetaModel {
        match self {
            MetaValue::Str(s) => MetaModel::Str(s@),
            MetaValue::List(v) => MetaModel::List(str_views(v@)),
            MetaValue::Other => MetaModel::Other,
        }
    }
}

impl Clone for MetaValue {
    /// A clone denotes the same model.
    fn clone(&self) -> (r: Self)
        ensures
            r@ == self@,
    {
        match self {
            MetaValue::Str(s) => MetaValue::Str(s.clone()),
            MetaValue::List(v) => MetaValue::List(clone_string_vec(v)),
            MetaValue::Other => MetaValue::Other,
        }
    }
}

/// How a metadata value displays: strings pass through, lists join with
/// `", "`, anything else becomes the fixed placeholder.
pub open spec fn value_str(m: MetaModel) -> Seq<char> {
    match m {
        MetaModel::Str(s) => s,
        MetaModel::List(xs) => join_comma(xs),
        MetaModel::Other => "<unsupported>"@,
    }
}

/// Stringifies a metadata value, as `value_str` says.
pub fn value_to_string(val: &MetaValue) -> (r: String)
    ensures
        r@ == value_str(val@),
{
    match val {
        MetaValue::Str(s) => s.clone(),
        MetaValue::List(v) => join_with_comma(v),
        MetaValue::Other => String::from_str("<unsupported>"),
    }
}

/// A metadata map, modelled as a map from field names to value models.
pub struct Metadata {
    entries: StrMap<MetaValue>,
}

impl View for Metadata {
    type V = Map<Seq<char>, MetaModel>;

    closed spec fn view(&self) -> Map<Seq<char>, MetaModel> {
        self.entries@.map_values(|v: MetaValue| v@)
    }
}

impl Metadata {
    /// An empty map.
    pub fn new() -> (r: Metadata)
        ensures
            r@ == Map::<Seq<char>, MetaModel>::empty(),
    {
        let r = Metadata { entries: StrMap::new() };
        proof {
            assert(r@ =~= Map::<Seq<char>, MetaModel>::empty());
        }
        r
    }

    /// Binds a field name to a value, replacing any earlier binding.
    pub fn insert(&mut self, key: String, value: MetaValue)
        ensures
            final(self)@ == old(self)@.insert(key@, value@),
    {
        let ghost gv = value@;
        self.entries.insert(key, value);
        proof {
            assert(self@ =~= old(self)@.insert(key@, gv));
        }
    }

    /// Looks a field up by its full, namespaced name.
    pub fn get(&self, key: &str) -> (r: Option<&MetaValue>)
        ensures
            match r {
                Some(v) => self@.contains_key(key@) && v@ == self@[key@],
                None => !self@.contains_key(key@),
            },
    {
        self.entries.get(key)
    }
}

} // verus!
