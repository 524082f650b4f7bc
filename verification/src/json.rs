//! What the credential provider reads of a JSON document: the members of a
//! top-level object, each with its text when its value is a JSON string.
use vstd::prelude::*;

verus! {

/// The members of a JSON object: each key with the text of its value when
/// that value is a string, and `None` when it is any other JSON value.
pub type MembersModel = Seq<(Seq<char>, Option<Seq<char>>)>;

/// A parsed JSON document as the credential logic sees it.
pub enum ParsedJson {
    /// The document is an object, with these members in key order.
    Object(Vec<(String, Option<String>)>),
    /// The document is a JSON value other than an object.
    NotObject,
}

impl View for ParsedJson {
    /// The members of the object, or `None` for any other value.
    type V = Option<MembersModel>;

    open spec fn view(&self) -> Option<MembersModel> {
        match self {
            ParsedJson::Object(members) => Some(members.deep_view()),
            ParsedJson::NotObject => None,
        }
    }
}

/// What `serde_json::from_str::<serde_json::Value>` gives for a text, as the
/// credential logic sees it: `None` when the text is not JSON, otherwise the
/// view of the parsed document.
pub uninterp spec fn spec_parse_json(text: Seq<char>) -> Option<Option<MembersModel>>;

/// Parses `text` with `serde_json::from_str` into a `serde_json::Value` and
/// converts it: an object to its members (in the map's order, each value
/// converted to its text when it is `Value::String`), any other value to
/// `NotObject`; a parse error to `None`.
/// Trusted: the result is the named parse of `text`; which texts are JSON and
/// what they hold is left to the name.
#[verifier::external_body]
pub(crate) fn parse_json(text: &str) -> (r: Option<ParsedJson>)
    ensures
        match r {
            Some(doc) => spec_parse_json(text@) == Some(doc@),
            None => spec_parse_json(text@) is None,
        },
{
    match serde_json::from_str::<serde_json::Value>(text) {
        Ok(serde_json::Value::Object(map)) => Some(
            ParsedJson::Object(
                map.into_iter().map(|(key, value)| (key, value.as_str().map(|t| t.to_string()))).collect(),
            ),
        ),
        Ok(_) => Some(ParsedJson::NotObject),
        Err(_) => None,
    }
}

/// The value of the first member named `key`: `None` when there is none,
/// `Some(Some(text))` for a string value, `Some(None)` for any other value.
pub open spec fn spec_member(members: MembersModel, key: Seq<char>) -> Option<Option<Seq<char>>>
    decreases members.len(),
{
    if members.len() == 0 {
        None
    } else if members[0].0 == key {
        Some(members[0].1)
    } else {
        spec_member(members.drop_first(), key)
    }
}

/// Looks up `key` in a document; a document that is not an object has no members.
pub open spec fn spec_find(doc: Option<MembersModel>, key: Seq<char>) -> Option<Option<Seq<char>>> {
    match doc {
        Some(members) => spec_member(members, key),
        None => None,
    }
}

/// Looking up a key gives the value of the first member with that key, and
/// nothing when no member has it.
pub proof fn lemma_member_is_first_with_key(members: MembersModel, key: Seq<char>)
    ensures
        spec_member(members, key) is None <==> forall|j: int|
            0 <= j < members.len() ==> (#[trigger] members[j]).0 != key,
        spec_member(members, key) matches Some(v) ==> exists|i: int|
            0 <= i < members.len() && (#[trigger] members[i]).0 == key && members[i].1 == v
                && forall|j: int| 0 <= j < i ==> (#[trigger] members[j]).0 != key,
    decreases members.len(),
{
    if members.len() > 0 {
        let rest = members.drop_first();
        lemma_member_is_first_with_key(rest, key);
        if members[0].0 == key {
            assert(members[0].0 == key);
        } else {
            assert forall|j: int| 0 <= j < rest.len() implies (#[trigger] rest[j]).0 == members[j
                + 1].0 by {}
            if spec_member(members, key) is None {
                assert forall|j: int| 0 <= j < members.len() implies (
                #[trigger] members[j]).0 != key by {
                    if j > 0 {
                        assert(rest[j - 1] == members[j]);
                    }
                }
            } else {
                if forall|j: int| 0 <= j < members.len() ==> (#[trigger] members[j]).0 != key {
                    assert forall|j: int| 0 <= j < rest.len() implies (#[trigger] rest[j]).0
                        != key by {
                        assert(rest[j] == members[j + 1]);
                    }
                }
                let v = spec_member(members, key)->Some_0;
                let i = choose|i: int|
                    0 <= i < rest.len() && (#[trigger] rest[i]).0 == key && rest[i].1 == v
                        && forall|j: int| 0 <= j < i ==> (#[trigger] rest[j]).0 != key;
                assert(members[i + 1] == rest[i]);
                assert forall|j: int| 0 <= j < i + 1 implies (#[trigger] members[j]).0 != key by {
                    if j > 0 {
                        assert(members[j] == rest[j - 1]);
                    }
                }
            }
        }
    }
}

impl ParsedJson {
    /// The value of the member `key` of the document (`Value::find` on the
    /// parsed value, then `Value::as_str`).
    pub fn find(&self, key: &str) -> (r: Option<Option<String>>)
        ensures
            spec_find(self@, key@) == match r {
                Some(Some(t)) => Some(Some(t@)),
                Some(None) => Some(None::<Seq<char>>),
                None => None::<Option<Seq<char>>>,
            },
    {
        match self {
            ParsedJson::NotObject => None,
            ParsedJson::Object(members) => {
                let wanted = key.to_owned();
                let ghost all = members.deep_view();
                let mut i: usize = 0;
                assert(self@ == Some(all));
                assert(all.skip(0) =~= all);
                while i < members.len()
                    invariant
                        0 <= i <= members.len(),
                        all == members.deep_view(),
                        self@ == Some(all),
                        wanted@ == key@,
                        spec_member(all, key@) == spec_member(all.skip(i as int), key@),
                    decreases members.len() - i,
                {
                    assert(all.skip(i as int)[0] == all[i as int]);
                    assert(all[i as int] == members@[i as int].deep_view());
                    if members[i].0 == wanted {
                        assert(all[i as int].0 == members@[i as int].0@);
                        assert(all[i as int].1 == members@[i as int].1.deep_view());
                        assert(spec_member(all, key@) == Some(all[i as int].1));
                        match &members[i].1 {
                            Some(t) => {
                                assert(all[i as int].1 == Some(t@));
                                return Some(Some(t.clone()));
                            },
                            None => {
                                assert(all[i as int].1 == None::<Seq<char>>);
                                return Some(None);
                            },
                        }
                    }
                    assert(all.skip(i as int).drop_first() =~= all.skip(i + 1));
                    i = i + 1;
                }
                None
            },
        }
    }
}

} // verus!
