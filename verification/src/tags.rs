//! The tag filter: the tags of which one must match, and the tags that must
//! not match.

use crate::text::{
    lemma_pieces_count, occurrences, pieces, same_text, split_trimmed, trimmed_pieces,
};
use crate::trusted::{
    debug_strings, debug_text, json_members, json_strings, json_text, read_members, read_strings,
    write_strings,
};
use vstd::prelude::*;
use vstd::string::*;

verus! {

/// A tag filter as the service takes and gives it. Both lists keep the order
/// in which they were given.
#[derive(Debug, Clone, PartialEq, Eq)]
pub struct TagsData {
    /// Tags of which at least one must match.
    pub any: Vec<String>,
    /// Tags that must not match.
    pub not: Vec<String>,
}

/// The model of a `TagsData`.
pub struct TagsModel {
    pub any: Seq<Seq<char>>,
    pub not: Seq<Seq<char>>,
}

impl DeepView for TagsData {
    type V = TagsModel;

    open spec fn deep_view(&self) -> TagsModel {
        TagsModel { any: self.any.deep_view(), not: self.not.deep_view() }
    }
}

/// The two lists of a filter.
#[derive(Debug, Clone, Copy, PartialEq, Eq)]
pub enum Field {
    Any,
    Not,
}

/// Why a text could not be read as a filter.
#[derive(Debug, Clone, PartialEq, Eq)]
pub enum DecodeError {
    /// The text is not a JSON object; the reader's message.
    Document(String),
    /// The object has no member for this list.
    Missing(Field),
    /// The member for this list is not a list of strings; the reader's message.
    Member(Field, String),
}

/// The model of a `DecodeError`.
pub enum DecodeFault {
    Document(Seq<char>),
    Missing(Field),
    Member(Field, Seq<char>),
}

impl DeepView for DecodeError {
    type V = DecodeFault;

    open spec fn deep_view(&self) -> DecodeFault {
        match self {
            DecodeError::Document(message) => DecodeFault::Document(message@),
            DecodeError::Missing(field) => DecodeFault::Missing(*field),
            DecodeError::Member(field, message) => DecodeFault::Member(*field, message@),
        }
    }
}

/// The model of what decoding returns.
pub open spec fn decoding_model(r: Result<TagsData, DecodeError>) -> Result<
    TagsModel,
    DecodeFault,
> {
    match r {
        Ok(tags) => Ok(tags.deep_view()),
        Err(error) => Err(error.deep_view()),
    }
}

/// The model of a text or an error message.
pub open spec fn text_model(r: Result<String, String>) -> Result<Seq<char>, Seq<char>> {
    match r {
        Ok(text) => Ok(text@),
        Err(message) => Err(message@),
    }
}

/// The model of a list read from a member, where there was a member.
pub open spec fn list_model(r: Option<Result<Vec<String>, String>>) -> Option<
    Result<Seq<Seq<char>>, Seq<char>>,
> {
    match r {
        None => None,
        Some(Ok(items)) => Some(Ok(items.deep_view())),
        Some(Err(message)) => Some(Err(message@)),
    }
}

/// The filter that two comma-separated texts stand for: each text is cut at
/// its commas and every piece is trimmed. An empty text stands for the one
/// empty tag.
pub open spec fn parsed(tags: Seq<char>, not_tags: Seq<char>) -> TagsModel {
    TagsModel { any: trimmed_pieces(tags, ','), not: trimmed_pieces(not_tags, ',') }
}

/// The name under which a list stands in the JSON object.
pub open spec fn field_name(field: Field) -> Seq<char> {
    match field {
        Field::Any => "any"@,
        Field::Not => "not"@,
    }
}

/// The JSON object of a filter, given the JSON texts of its two lists.
pub open spec fn framed(any_json: Seq<char>, not_json: Seq<char>) -> Seq<char> {
    "{\"any\":"@ + any_json + ",\"not\":"@ + not_json + "}"@
}

/// The JSON text of a filter, or the writer's message where it fails on one
/// of the lists.
pub open spec fn encoded(tags: TagsModel) -> Result<Seq<char>, Seq<char>> {
    match json_text(tags.any) {
        Err(message) => Err(message),
        Ok(any_json) => match json_text(tags.not) {
            Err(message) => Err(message),
            Ok(not_json) => Ok(framed(any_json, not_json)),
        },
    }
}

/// The value text of the first member called `name`.
pub open spec fn member_text(members: Seq<(Seq<char>, Seq<char>)>, name: Seq<char>) -> Option<
    Seq<char>,
>
    decreases members.len(),
{
    if members.len() == 0 {
        None
    } else if members.first().0 == name {
        Some(members.first().1)
    } else {
        member_text(members.drop_first(), name)
    }
}

/// The list that the members of an object hold for `field`, as the reader
/// sees it; `None` where no member has the field's name.
pub open spec fn member_list(members: Seq<(Seq<char>, Seq<char>)>, field: Field) -> Option<
    Result<Seq<Seq<char>>, Seq<char>>,
> {
    match member_text(members, field_name(field)) {
        None => None,
        Some(text) => Some(json_strings(text)),
    }
}

/// The filter made of the two lists as they were read, or the first thing
/// that is wrong with them, `any` before `not`.
pub open spec fn assembled(
    any: Option<Result<Seq<Seq<char>>, Seq<char>>>,
    not: Option<Result<Seq<Seq<char>>, Seq<char>>>,
) -> Result<TagsModel, DecodeFault> {
    match any {
        None => Err(DecodeFault::Missing(Field::Any)),
        Some(Err(message)) => Err(DecodeFault::Member(Field::Any, message)),
        Some(Ok(any_items)) => match not {
            None => Err(DecodeFault::Missing(Field::Not)),
            Some(Err(message)) => Err(DecodeFault::Member(Field::Not, message)),
            Some(Ok(not_items)) => Ok(TagsModel { any: any_items, not: not_items }),
        },
    }
}

/// The filter that the members of an object stand for. Members under other
/// names are passed over.
pub open spec fn decoded_members(members: Seq<(Seq<char>, Seq<char>)>) -> Result<
    TagsModel,
    DecodeFault,
> {
    assembled(member_list(members, Field::Any), member_list(members, Field::Not))
}

/// The filter that a JSON text stands for: the text must be an object with a
/// member `any` and a member `not`, each a list of strings.
pub open spec fn decoded(text: Seq<char>) -> Result<TagsModel, DecodeFault> {
    match json_members(text) {
        Err(message) => Err(DecodeFault::Document(message)),
        Ok(members) => decoded_members(members),
    }
}

/// How a filter is shown to the user, over three lines.
pub open spec fn described(tags: TagsModel) -> Seq<char> {
    "{\n    any: "@ + debug_text(tags.any) + ",\n    not: "@ + debug_text(tags.not) + "\n}"@
}

/// What a decoding error says.
pub open spec fn fault_message(fault: DecodeFault) -> Seq<char> {
    match fault {
        DecodeFault::Document(message) => message,
        DecodeFault::Missing(field) => "missing field `"@ + field_name(field) + "`"@,
        DecodeFault::Member(field, message) => "field `"@ + field_name(field) + "`: "@ + message,
    }
}

/// A text without exclusions gives as many tags as the commas cut it into
/// pieces, which is one more than it has commas, and the one empty tag to
/// exclude.
pub proof fn lemma_parsed_without_exclusions(tags: Seq<char>)
    ensures
        parsed(tags, Seq::empty()).any.len() == pieces(tags, ',').len(),
        parsed(tags, Seq::empty()).any.len() == occurrences(tags, ',') + 1,
        parsed(tags, Seq::empty()).not == seq![Seq::<char>::empty()],
{
    lemma_pieces_count(tags, ',');
}

/// Where the JSON reader gives back what the JSON writer was given, decoding
/// undoes encoding: if the writer turns the two lists of `tags` into
/// `any_json` and `not_json`, the reader finds these two texts as the members
/// `any` and `not` of the object framed from them, and reads each as the list
/// it was written from, then the encoded filter decodes to `tags`, with both
/// lists in their order.
pub proof fn lemma_decoding_undoes_encoding(
    tags: TagsModel,
    any_json: Seq<char>,
    not_json: Seq<char>,
)
    ensures
        ({
            &&& json_text(tags.any) == Ok::<Seq<char>, Seq<char>>(any_json)
            &&& json_text(tags.not) == Ok::<Seq<char>, Seq<char>>(not_json)
            &&& json_members(framed(any_json, not_json)) == Ok::<
                Seq<(Seq<char>, Seq<char>)>,
                Seq<char>,
            >(seq![("any"@, any_json), ("not"@, not_json)])
            &&& json_strings(any_json) == Ok::<Seq<Seq<char>>, Seq<char>>(tags.any)
            &&& json_strings(not_json) == Ok::<Seq<Seq<char>>, Seq<char>>(tags.not)
        }) ==> {
            &&& encoded(tags) == Ok::<Seq<char>, Seq<char>>(framed(any_json, not_json))
            &&& decoded(framed(any_json, not_json)) == Ok::<TagsModel, DecodeFault>(tags)
        },
{
    reveal_strlit("any");
    reveal_strlit("not");
    let members = seq![("any"@, any_json), ("not"@, not_json)];
    assert("any"@ != "not"@) by {
        assert("any"@[0] != "not"@[0]);
    }
    assert(member_text(members.drop_first(), "not"@) == Some(not_json));
}

impl TagsData {
    /// The filter as JSON text: an object with the members `any` and `not`,
    /// each the list in its order. Where the writer fails, its message.
    pub fn to_json(&self) -> (r: Result<String, String>)
        ensures
            text_model(r) == encoded(self.deep_view()),
    {
        match write_strings(&self.any) {
            Err(message) => Err(message),
            Ok(any_json) => match write_strings(&self.not) {
                Err(message) => Err(message),
                Ok(not_json) => Ok(frame(any_json.as_str(), not_json.as_str())),
            },
        }
    }

    /// Reads a filter from JSON text.
    pub fn from_json(text: &str) -> (r: Result<TagsData, DecodeError>)
        ensures
            decoding_model(r) == decoded(text@),
    {
        match read_members(text) {
            Err(message) => Err(DecodeError::Document(message)),
            Ok(members) => TagsData::from_members(&members),
        }
    }

    /// Reads a filter from the members of a JSON object, each given by its
    /// name and the JSON text of its value.
    pub fn from_members(members: &Vec<(String, String)>) -> (r: Result<TagsData, DecodeError>)
        ensures
            decoding_model(r) == decoded_members(members.deep_view()),
    {
        let any = read_member(members, Field::Any);
        let not = read_member(members, Field::Not);
        TagsData::from_lists(any, not)
    }

    /// Puts a filter together from its two lists as they were read: `None`
    /// where the member was missing, the reader's message where it was not a
    /// list of strings.
    pub fn from_lists(
        any: Option<Result<Vec<String>, String>>,
        not: Option<Result<Vec<String>, String>>,
    ) -> (r: Result<TagsData, DecodeError>)
        ensures
            decoding_model(r) == assembled(list_model(any), list_model(not)),
    {
        match any {
            None => Err(DecodeError::Missing(Field::Any)),
            Some(Err(message)) => Err(DecodeError::Member(Field::Any, message)),
            Some(Ok(any_items)) => match not {
                None => Err(DecodeError::Missing(Field::Not)),
                Some(Err(message)) => Err(DecodeError::Member(Field::Not, message)),
                Some(Ok(not_items)) => Ok(TagsData { any: any_items, not: not_items }),
            },
        }
    }

    /// How the filter is shown to the user, over three lines.
    pub fn describe(&self) -> (shown: String)
        ensures
            shown@ == described(self.deep_view()),
    {
        let mut shown = "{\n    any: ".to_owned();
        shown.append(debug_strings(&self.any).as_str());
        shown.append(",\n    not: ");
        shown.append(debug_strings(&self.not).as_str());
        shown.append("\n}");
        shown
    }
}

impl Field {
    /// The name under which the list stands in the JSON object.
    pub fn name(&self) -> (name: &'static str)
        ensures
            name@ == field_name(*self),
    {
        match self {
            Field::Any => "any",
            Field::Not => "not",
        }
    }
}

impl DecodeError {
    /// What the error says.
    pub fn message(&self) -> (message: String)
        ensures
            message@ == fault_message(self.deep_view()),
    {
        match self {
            DecodeError::Document(message) => message.clone(),
            DecodeError::Missing(field) => {
                let mut out = "missing field `".to_owned();
                out.append(field.name());
                out.append("`");
                out
            },
            DecodeError::Member(field, message) => {
                let mut out = "field `".to_owned();
                out.append(field.name());
                out.append("`: ");
                out.append(message.as_str());
                out
            },
        }
    }
}

/// Cuts the two texts at their commas and trims every piece.
pub fn parse_tags_data(tags: &str, not_tags: &str) -> (data: TagsData)
    ensures
        data.deep_view() == parsed(tags@, not_tags@),
{
    TagsData { any: split_trimmed(tags, ','), not: split_trimmed(not_tags, ',') }
}

/// The JSON object of a filter, given the JSON texts of its two lists.
pub fn frame(any_json: &str, not_json: &str) -> (text: String)
    ensures
        text@ == framed(any_json@, not_json@),
{
    let mut text = "{\"any\":".to_owned();
    text.append(any_json);
    text.append(",\"not\":");
    text.append(not_json);
    text.append("}");
    text
}

/// The value text of the first member called `name`.
pub fn find_member<'a>(members: &'a Vec<(String, String)>, name: &str) -> (found: Option<&'a str>)
    ensures
        match found {
            Some(text) => member_text(members.deep_view(), name@) == Some(text@),
            None => member_text(members.deep_view(), name@) is None,
        },
{
    let ghost all = members.deep_view();
    let mut i: usize = 0;
    assert(all.skip(0) == all);
    while i < members.len()
        invariant
            i <= members.len(),
            all == members.deep_view(),
            member_text(all, name@) == member_text(all.skip(i as int), name@),
        decreases members.len() - i,
    {
        assert(all.skip(i as int).drop_first() == all.skip(i + 1));
        if same_text(members[i].0.as_str(), name) {
            return Some(members[i].1.as_str());
        }
        i = i + 1;
    }
    None
}

/// Reads the list that the members hold for `field`.
fn read_member(members: &Vec<(String, String)>, field: Field) -> (r: Option<
    Result<Vec<String>, String>,
>)
    ensures
        list_model(r) == member_list(members.deep_view(), field),
{
    match find_member(members, field.name()) {
        None => None,
        Some(text) => Some(read_strings(text)),
    }
}

} // verus!
