//! Malformed-JSON recovery: a direct parse, and on failure a structural
//! repair of the text followed by a second parse.

use crate::error::OramaError;
use crate::text::owned;
use vstd::prelude::*;
use vstd::utf8::encode_utf8;

verus! {

/// Declares `serde_json::Error`, the parse failure that the parse wrapper
/// hands back; nothing is assumed of its contents.
#[verifier::external_type_specification]
#[verifier::external_body]
pub struct ExJsonError(serde_json::Error);

/// Declares `llm_json::JsonRepairError`, the reason a repair gave up;
/// nothing is assumed of its contents.
#[verifier::external_type_specification]
#[verifier::external_body]
pub struct ExJsonRepairError(llm_json::JsonRepairError);

/// One member of a JSON object: its key, and its text when the value is a
/// JSON string.
#[derive(Debug, Clone, PartialEq, Eq)]
pub struct JsonMember {
    pub key: String,
    pub text: Option<String>,
}

/// A parsed JSON document, as far as the stream decoder reads it: the members
/// of a top-level object, or some other JSON value.
#[derive(Debug, Clone, PartialEq, Eq)]
pub enum JsonDoc {
    Object(Vec<JsonMember>),
    Other,
}

/// The mathematical value of a member: its key and optional string value.
pub type MemberView = (Seq<char>, Option<Seq<char>>);

impl View for JsonMember {
    type V = MemberView;

    open spec fn view(&self) -> MemberView {
        (self.key@, self.text.deep_view())
    }
}

impl DeepView for JsonMember {
    type V = MemberView;

    open spec fn deep_view(&self) -> MemberView {
        self@
    }
}

impl View for JsonDoc {
    type V = Option<Seq<MemberView>>;

    /// `Some` of the members for an object, `None` for any other value.
    open spec fn view(&self) -> Option<Seq<MemberView>> {
        match self {
            JsonDoc::Object(members) => Some(members.deep_view()),
            JsonDoc::Other => None,
        }
    }
}

/// What `serde_json` parses `text` to: `None` when the text is not JSON,
/// otherwise the document (see the view of [`JsonDoc`]).
pub uninterp spec fn json_parse(text: Seq<char>) -> Option<Option<Seq<MemberView>>>;

/// What `llm_json` repairs `text` to, or `None` when it gives up.
pub uninterp spec fn json_repair(text: Seq<char>) -> Option<Seq<char>>;

/// Relies on `serde_json::from_str::<serde_json::Value>`: parses `text`, and
/// hands out the members of an object in the order of the parsed map.
#[verifier::external_body]
fn parse_json_text(text: &str) -> (r: Result<JsonDoc, serde_json::Error>)
    ensures
        r is Ok <==> json_parse(text@) is Some,
        r matches Ok(d) ==> json_parse(text@) == Some(d@),
{
    match serde_json::from_str::<serde_json::Value>(text) {
        Ok(serde_json::Value::Object(map)) => Ok(JsonDoc::Object(
            map.into_iter().map(|(key, value)| JsonMember {
                key,
                text: if let serde_json::Value::String(s) = value { Some(s) } else { None },
            }).collect(),
        )),
        Ok(_) => Ok(JsonDoc::Other),
        Err(e) => Err(e),
    }
}

/// The most `{` and `[` characters a text may hold for the repair to be
/// tried. The repair parser recurses once for each object or array it opens,
/// and each of those starts at one of these characters, so the count bounds
/// the depth of its recursion.
pub const MAX_REPAIR_OPENERS: usize = 256;

/// The number of `{` and `[` bytes in `bytes` (in UTF-8 text, exactly the
/// number of `{` and `[` characters).
pub open spec fn opener_count(bytes: Seq<u8>) -> nat
    decreases bytes.len(),
{
    if bytes.len() == 0 {
        0
    } else {
        opener_count(bytes.drop_last()) + if bytes.last() == 0x7Bu8 || bytes.last() == 0x5Bu8 {
            1nat
        } else {
            0nat
        }
    }
}

/// Whether `text` is shallow enough for the repair to be tried.
pub open spec fn repairable(text: Seq<char>) -> bool {
    opener_count(encode_utf8(text)) <= MAX_REPAIR_OPENERS
}

/// Whether the repair may be tried on `data` (see [`MAX_REPAIR_OPENERS`]).
pub fn within_repair_depth(data: &str) -> (r: bool)
    ensures
        r == repairable(data@),
{
    let bytes = data.as_bytes();
    let mut count: usize = 0;
    let mut i: usize = 0;
    while i < bytes.len()
        invariant
            bytes@ == encode_utf8(data@),
            i <= bytes@.len(),
            count == opener_count(bytes@.take(i as int)),
            count <= MAX_REPAIR_OPENERS,
        decreases bytes@.len() - i,
    {
        assert(bytes@.take(i + 1).drop_last() =~= bytes@.take(i as int));
        if bytes[i] == 0x7Bu8 || bytes[i] == 0x5Bu8 {
            if count == MAX_REPAIR_OPENERS {
                proof {
                    lemma_opener_count_prefix(bytes@, i + 1);
                }
                return false;
            }
            count = count + 1;
        }
        i = i + 1;
    }
    assert(bytes@.take(i as int) =~= bytes@);
    true
}

/// A prefix holds no more openers than the whole.
proof fn lemma_opener_count_prefix(bytes: Seq<u8>, n: int)
    requires
        0 <= n <= bytes.len(),
    ensures
        opener_count(bytes.take(n)) <= opener_count(bytes),
    decreases bytes.len() - n,
{
    if n < bytes.len() {
        lemma_opener_count_prefix(bytes, n + 1);
        assert(bytes.take(n + 1).drop_last() =~= bytes.take(n));
    } else {
        assert(bytes.take(n) =~= bytes);
    }
}

/// Relies on `llm_json::repair_json` with its default options: the repaired
/// text, or the reason it gave up. Its parser recurses once per object or
/// array it opens, without limit, so deeply nested input is left out.
#[verifier::external_body]
fn repair_json_text(text: &str) -> (r: Result<String, llm_json::JsonRepairError>)
    requires
        repairable(text@),
    ensures
        r is Ok <==> json_repair(text@) is Some,
        r matches Ok(s) ==> json_repair(text@) == Some(s@),
{
    llm_json::repair_json(text, &llm_json::RepairOptions::default())
}

/// The document that best-effort recovery reaches for `text`: the direct
/// parse when it succeeds, else, for text shallow enough to repair, the
/// parse of the repaired text.
pub open spec fn recovered(text: Seq<char>) -> Option<Option<Seq<MemberView>>> {
    if json_parse(text) is Some {
        json_parse(text)
    } else if !repairable(text) {
        None
    } else {
        match json_repair(text) {
            Some(fixed) => json_parse(fixed),
            None => None,
        }
    }
}

/// Safely parse JSON, repairing it when a direct parse fails.
///
/// Returns the document on success of either attempt, and otherwise a `Json`
/// error that carries the original text. Text too deeply nested to repair
/// safely (see [`MAX_REPAIR_OPENERS`]) is not repaired.
pub fn safe_json_parse(data: &str) -> (r: Result<JsonDoc, OramaError>)
    ensures
        r is Ok <==> recovered(data@) is Some,
        r matches Ok(d) ==> recovered(data@) == Some(d@),
        r matches Err(e) ==> (e matches OramaError::Json { message } && message@ == data@),
{
    match parse_json_text(data) {
        Ok(doc) => Ok(doc),
        Err(_) => {
            if !within_repair_depth(data) {
                return Err(OramaError::Json { message: owned(data) });
            }
            match repair_json_text(data) {
                Ok(fixed) => match parse_json_text(fixed.as_str()) {
                    Ok(doc) => Ok(doc),
                    Err(_) => Err(OramaError::Json { message: owned(data) }),
                },
                Err(_) => Err(OramaError::Json { message: owned(data) }),
            }
        },
    }
}

/// Parse potentially malformed JSON from AI responses.
pub fn parse_ai_response(data: &str) -> (r: Result<JsonDoc, OramaError>)
    ensures
        r is Ok <==> recovered(data@) is Some,
        r matches Ok(d) ==> recovered(data@) == Some(d@),
        r matches Err(e) ==> (e matches OramaError::Json { message } && message@ == data@),
{
    safe_json_parse(data)
}

/// The string value of the first member named `key`, if that member exists
/// and holds a JSON string.
pub open spec fn member_text(members: Seq<MemberView>, key: Seq<char>) -> Option<Seq<char>>
    decreases members.len(),
{
    if members.len() == 0 {
        None
    } else if members[0].0 == key {
        members[0].1
    } else {
        member_text(members.drop_first(), key)
    }
}

/// Looks up the string value of the member named `key`.
pub fn find_text(members: &Vec<JsonMember>, key: &str) -> (r: Option<String>)
    ensures
        r.deep_view() == member_text(members.deep_view(), key@),
{
    let wanted = owned(key);
    let mut i: usize = 0;
    assert(members.deep_view().skip(0) =~= members.deep_view());
    while i < members.len()
        invariant
            i <= members.len(),
            wanted@ == key@,
            member_text(members.deep_view(), key@) == member_text(
                members.deep_view().skip(i as int),
                key@,
            ),
        decreases members.len() - i,
    {
        let ghost rest = members.deep_view().skip(i as int);
        assert(rest[0] == members[i as int]@);
        assert(rest.drop_first() =~= members.deep_view().skip(i + 1));
        if members[i].key == wanted {
            return match &members[i].text {
                Some(t) => Some(owned(t.as_str())),
                None => None,
            };
        }
        i += 1;
    }
    None
}

} // verus!
