//! Wire format of the status channel: one JSON object per status event,
//! with the member `request` naming the variant, and a line feed after it.

use vstd::prelude::*;
use crate::api::{clamped, Request, RequestView, MAX_PERCENT};
use crate::text::{decimal, decimal_text, same_text};

verus! {

/// What a member of a JSON object holds, as far as the status channel reads it.
#[derive(Debug, Clone, PartialEq, Eq)]
pub enum FieldValue {
    /// A JSON string.
    Text(String),
    /// A JSON number, with its value where it is a whole number from 0 to
    /// 2^64 - 1.
    Number(Option<u64>),
    /// Any other JSON value.
    Other,
}

/// A member of a JSON object.
#[derive(Debug, Clone, PartialEq, Eq)]
pub struct Field {
    pub name: String,
    pub value: FieldValue,
}

/// What a member holds, as a mathematical value.
pub enum FieldValueView {
    Text(Seq<char>),
    Number(Option<u64>),
    Other,
}

/// A member of a JSON object as a mathematical value.
pub struct FieldView {
    pub name: Seq<char>,
    pub value: FieldValueView,
}

impl View for FieldValue {
    type V = FieldValueView;

    open spec fn view(&self) -> FieldValueView {
        match self {
            FieldValue::Text(text) => FieldValueView::Text(text@),
            FieldValue::Number(number) => FieldValueView::Number(*number),
            FieldValue::Other => FieldValueView::Other,
        }
    }
}

impl View for Field {
    type V = FieldView;

    open spec fn view(&self) -> FieldView {
        FieldView { name: self.name@, value: self.value@ }
    }
}

/// The members of `fields` as mathematical values.
pub open spec fn fields_view(fields: Seq<Field>) -> Seq<FieldView> {
    fields.map_values(|field: Field| field@)
}

/// Why a line is no status event.
#[derive(Debug, Clone, Copy, PartialEq, Eq)]
pub enum DecodeError {
    /// The line is not one JSON object.
    Malformed,
    /// The object has no member `request` that is a string.
    MissingRequest,
    /// The member `request` names no variant.
    UnknownRequest,
    /// The object has no member `text` that is a string.
    MissingText,
    /// A progress event has no member `percent` that is a whole number.
    MissingPercent,
}

/// The JSON string literal for `text`, quotation marks included, as
/// `serde_json` writes it.
pub uninterp spec fn json_string(text: Seq<char>) -> Seq<char>;

/// The members of the JSON object that `line` holds, as `serde_json` reads
/// them, or `None` where `line` is not one JSON object.
pub uninterp spec fn json_fields(line: Seq<char>) -> Option<Seq<FieldView>>;

/// Calls `serde_json::to_string` on a string slice. The result is the JSON
/// string literal for `text`; writing a string to memory does not fail.
#[verifier::external_body]
fn json_quote(text: &str) -> (literal: String)
    ensures
        literal@ == json_string(text@),
{
    match serde_json::to_string(text) {
        Ok(literal) => literal,
        Err(_) => String::new(),
    }
}

/// Calls `serde_json::from_str` for a `serde_json::Map`, which succeeds
/// where `line` holds one JSON object and nothing but white space around
/// it, and hands out the members one for one: a string as `Text`, a number
/// as `Number` with what `Number::as_u64` gives for it, any other value as
/// `Other`.
#[verifier::external_body]
fn parse_fields(line: &str) -> (fields: Option<Vec<Field>>)
    ensures
        fields matches Some(found) ==> json_fields(line@) == Some(fields_view(found@)),
        fields is None ==> json_fields(line@) is None,
{
    match serde_json::from_str::<serde_json::Map<String, serde_json::Value>>(line) {
        Ok(object) => Some(object.into_iter().map(|(name, value)| match value {
            serde_json::Value::String(text) => Field { name, value: FieldValue::Text(text) },
            serde_json::Value::Number(n) => Field { name, value: FieldValue::Number(n.as_u64()) },
            serde_json::Value::Null => Field { name, value: FieldValue::Other },
            serde_json::Value::Bool(_) => Field { name, value: FieldValue::Other },
            serde_json::Value::Array(_) => Field { name, value: FieldValue::Other },
            serde_json::Value::Object(_) => Field { name, value: FieldValue::Other },
        }).collect()),
        Err(_) => None,
    }
}

/// What the first member called `name` holds.
pub open spec fn field_value(fields: Seq<FieldView>, name: Seq<char>) -> Option<FieldValueView>
    decreases fields.len(),
{
    if fields.len() == 0 {
        None
    } else if fields[0].name == name {
        Some(fields[0].value)
    } else {
        field_value(fields.drop_first(), name)
    }
}

/// The string that the first member called `name` holds.
pub open spec fn text_field(fields: Seq<FieldView>, name: Seq<char>) -> Option<Seq<char>> {
    match field_value(fields, name) {
        Some(FieldValueView::Text(text)) => Some(text),
        _ => None,
    }
}

/// The whole number from 0 to 2^64 - 1 that the first member called `name`
/// holds. A number below zero or with a fraction is none.
pub open spec fn number_field(fields: Seq<FieldView>, name: Seq<char>) -> Option<u64> {
    match field_value(fields, name) {
        Some(FieldValueView::Number(Some(number))) => Some(number),
        _ => None,
    }
}

fn find_field<'a>(fields: &'a Vec<Field>, name: &str) -> (found: Option<&'a FieldValue>)
    ensures
        found matches Some(value) ==> field_value(fields_view(fields@), name@) == Some(value@),
        found is None ==> field_value(fields_view(fields@), name@) is None,
{
    let mut i: usize = 0;
    assert(fields_view(fields@).subrange(0, fields@.len() as int) =~= fields_view(fields@));
    while i < fields.len()
        invariant
            i <= fields.len(),
            field_value(fields_view(fields@), name@) == field_value(
                fields_view(fields@).subrange(i as int, fields@.len() as int),
                name@,
            ),
        decreases fields.len() - i,
    {
        let ghost rest = fields_view(fields@).subrange(i as int, fields@.len() as int);
        assert(rest[0] == fields@[i as int]@);
        assert(rest.drop_first() =~= fields_view(fields@).subrange(i + 1, fields@.len() as int));
        if same_text(fields[i].name.as_str(), name) {
            return Some(&fields[i].value);
        }
        i = i + 1;
    }
    None
}

/// The members that stand for `request` on the wire: the discriminator,
/// the text and, for a progress event, the percentage.
pub open spec fn request_fields(request: RequestView) -> Seq<FieldView> {
    let head = seq![
        FieldView { name: "request"@, value: FieldValueView::Text(request.discriminator()) },
        FieldView { name: "text"@, value: FieldValueView::Text(request.text()) },
    ];
    match request {
        RequestView::ProgressInfo { percent, .. } => head.push(
            FieldView {
                name: "percent"@,
                value: FieldValueView::Number(Some(clamped(percent as int) as u64)),
            },
        ),
        _ => head,
    }
}

/// The status event with discriminator `word` and the given text.
pub open spec fn plain_request(word: Seq<char>, text: Seq<char>) -> Option<RequestView> {
    if word == "info"@ {
        Some(RequestView::Info { text })
    } else if word == "ready_info"@ {
        Some(RequestView::ReadyInfo { text })
    } else if word == "warning"@ {
        Some(RequestView::Warning { text })
    } else if word == "error"@ {
        Some(RequestView::Error { text })
    } else if word == "command_output"@ {
        Some(RequestView::CommandOutput { text })
    } else {
        None
    }
}

/// The status event that the members of a JSON object stand for. Members
/// that the variant does not have are passed over, and a percentage above
/// the largest counts as the largest.
pub open spec fn request_of_fields(fields: Seq<FieldView>) -> Result<RequestView, DecodeError> {
    match text_field(fields, "request"@) {
        None => Err(DecodeError::MissingRequest),
        Some(word) => {
            if word != "progress_info"@ && plain_request(word, Seq::empty()) is None {
                Err(DecodeError::UnknownRequest)
            } else {
                match text_field(fields, "text"@) {
                    None => Err(DecodeError::MissingText),
                    Some(text) => {
                        if word == "progress_info"@ {
                            match number_field(fields, "percent"@) {
                                None => Err(DecodeError::MissingPercent),
                                Some(number) => Ok(
                                    RequestView::ProgressInfo {
                                        text,
                                        percent: clamped(number as int),
                                    },
                                ),
                            }
                        } else {
                            Ok(plain_request(word, text)->0)
                        }
                    },
                }
            }
        },
    }
}

/// The status event that a line stands for, given what `serde_json` read in it.
pub open spec fn decoded(parsed: Option<Seq<FieldView>>) -> Result<RequestView, DecodeError> {
    match parsed {
        None => Err(DecodeError::Malformed),
        Some(fields) => request_of_fields(fields),
    }
}

/// The JSON object that stands for `request`: the members `request`, `text`
/// and, for a progress event, `percent`, in this order and without white
/// space. The percentage is written in range.
pub open spec fn document(request: RequestView) -> Seq<char> {
    let head = "{\"request\":\""@ + request.discriminator() + "\",\"text\":"@ + json_string(
        request.text(),
    );
    match request {
        RequestView::ProgressInfo { percent, .. } => head + ",\"percent\":"@ + decimal(
            clamped(percent as int) as nat,
        ) + "}"@,
        _ => head + "}"@,
    }
}

/// The same result with the event as a mathematical value.
pub open spec fn result_view(result: Result<Request, DecodeError>) -> Result<
    RequestView,
    DecodeError,
> {
    match result {
        Ok(request) => Ok(request@),
        Err(error) => Err(error),
    }
}

fn clamp_number(number: u64) -> (percent: u8)
    ensures
        percent == clamped(number as int),
{
    if number > 100 {
        MAX_PERCENT
    } else {
        number as u8
    }
}

impl Request {
    /// The members that stand for the event on the wire.
    pub fn fields(&self) -> (fields: Vec<Field>)
        ensures
            fields_view(fields@) == request_fields(self@),
    {
        let mut fields: Vec<Field> = Vec::new();
        fields.push(
            Field {
                name: "request".to_owned(),
                value: FieldValue::Text(self.discriminator().to_owned()),
            },
        );
        fields.push(Field { name: "text".to_owned(), value: FieldValue::Text(self.text().clone()) });
        match self {
            Request::ProgressInfo { percent, .. } => {
                fields.push(
                    Field {
                        name: "percent".to_owned(),
                        value: FieldValue::Number(
                            Some(crate::api::clamp_percent(*percent) as u64),
                        ),
                    },
                );
            },
            _ => {},
        }
        assert(fields_view(fields@) =~= request_fields(self@));
        fields
    }

    /// The status event that the members of a JSON object stand for.
    pub fn from_fields(fields: &Vec<Field>) -> (result: Result<Request, DecodeError>)
        ensures
            result_view(result) == request_of_fields(fields_view(fields@)),
    {
        let word: &String = match find_field(fields, "request") {
            Some(FieldValue::Text(word)) => word,
            _ => { return Err(DecodeError::MissingRequest); },
        };
        let word = word.as_str();
        let progress = same_text(word, "progress_info");
        let known = progress || same_text(word, "info") || same_text(word, "ready_info")
            || same_text(word, "warning") || same_text(word, "error") || same_text(
            word,
            "command_output",
        );
        if !known {
            return Err(DecodeError::UnknownRequest);
        }
        let text: String = match find_field(fields, "text") {
            Some(FieldValue::Text(text)) => text.clone(),
            _ => { return Err(DecodeError::MissingText); },
        };
        if progress {
            match find_field(fields, "percent") {
                Some(FieldValue::Number(Some(number))) => Ok(
                    Request::ProgressInfo { text, percent: clamp_number(*number) },
                ),
                _ => Err(DecodeError::MissingPercent),
            }
        } else if same_text(word, "info") {
            Ok(Request::Info { text })
        } else if same_text(word, "ready_info") {
            Ok(Request::ReadyInfo { text })
        } else if same_text(word, "warning") {
            Ok(Request::Warning { text })
        } else if same_text(word, "error") {
            Ok(Request::Error { text })
        } else {
            Ok(Request::CommandOutput { text })
        }
    }

    /// The JSON object that stands for the event.
    pub fn encode(&self) -> (json: String)
        ensures
            json@ == document(self@),
    {
        let mut json = "{\"request\":\"".to_owned();
        json.append(self.discriminator());
        json.append("\",\"text\":");
        json.append(json_quote(self.text().as_str()).as_str());
        match self {
            Request::ProgressInfo { percent, .. } => {
                json.append(",\"percent\":");
                json.append(decimal_text(crate::api::clamp_percent(*percent) as u64).as_str());
            },
            _ => {},
        }
        json.append("}");
        assert(json@ =~= document(self@));
        json
    }

    /// The line that a producer writes for the event: the JSON object and a
    /// line feed.
    pub fn to_line(&self) -> (line: String)
        ensures
            line@ == document(self@) + "\n"@,
    {
        let mut line = self.encode();
        line.append("\n");
        line
    }

    /// Reads a line of the status channel.
    pub fn decode(line: &str) -> (result: Result<Request, DecodeError>)
        ensures
            result_view(result) == decoded(json_fields(line@)),
    {
        match parse_fields(line) {
            Some(fields) => Request::from_fields(&fields),
            None => Err(DecodeError::Malformed),
        }
    }

    /// The line that a producer writes for the event, read back before it
    /// is handed out: a consumer reads in it the same variant with the same
    /// text and, for a progress event, the percentage brought into range.
    /// `None` where it would not, so that no such line is ever sent.
    pub fn to_checked_line(&self) -> (line: Option<String>)
        ensures
            line matches Some(text) ==> text@ == document(self@) + "\n"@ && decoded(
                json_fields(text@),
            ) == Ok::<RequestView, DecodeError>(self@.normalized()),
            line is None <==> decoded(json_fields(document(self@) + "\n"@)) != Ok::<
                RequestView,
                DecodeError,
            >(self@.normalized()),
    {
        let text = self.to_line();
        match Request::decode(text.as_str()) {
            Ok(read) => {
                if read.same_as(&self.normalized()) {
                    Some(text)
                } else {
                    None
                }
            },
            Err(_) => None,
        }
    }
}

/// The words of the wire format differ from one another.
proof fn lemma_words_differ()
    ensures
        "request"@ != "text"@,
        "request"@ != "percent"@,
        "text"@ != "percent"@,
        "info"@ != "progress_info"@,
        "info"@ != "ready_info"@,
        "info"@ != "warning"@,
        "info"@ != "error"@,
        "info"@ != "command_output"@,
        "progress_info"@ != "ready_info"@,
        "progress_info"@ != "warning"@,
        "progress_info"@ != "error"@,
        "progress_info"@ != "command_output"@,
        "ready_info"@ != "warning"@,
        "ready_info"@ != "error"@,
        "ready_info"@ != "command_output"@,
        "warning"@ != "error"@,
        "warning"@ != "command_output"@,
        "error"@ != "command_output"@,
{
    reveal_strlit("request");
    reveal_strlit("text");
    reveal_strlit("percent");
    reveal_strlit("info");
    reveal_strlit("progress_info");
    reveal_strlit("ready_info");
    reveal_strlit("warning");
    reveal_strlit("error");
    reveal_strlit("command_output");
    assert("request"@.len() == 7);
    assert("text"@.len() == 4);
    assert("percent"@[0] == 'p');
    assert("request"@[0] == 'r');
    assert("info"@.len() == 4);
    assert("progress_info"@.len() == 13);
    assert("ready_info"@.len() == 10);
    assert("warning"@.len() == 7);
    assert("error"@.len() == 5);
    assert("command_output"@.len() == 14);
}

/// Round trip of the status channel, member for member: the members that
/// stand for an event are read back as that event, with the same variant,
/// the same text and, where the percentage is in range, the same
/// percentage; one out of range is read back as the largest.
pub proof fn lemma_fields_round_trip(request: RequestView)
    ensures
        request_of_fields(request_fields(request)) == Ok::<RequestView, DecodeError>(
            request.normalized(),
        ),
        request.percent() matches Some(percent) && percent <= MAX_PERCENT ==> request_of_fields(
            request_fields(request),
        ) == Ok::<RequestView, DecodeError>(request),
        request.percent() is None ==> request_of_fields(request_fields(request)) == Ok::<
            RequestView,
            DecodeError,
        >(request),
{
    lemma_words_differ();
    let fields = request_fields(request);
    reveal_with_fuel(field_value, 4);
    assert(field_value(fields, "request"@) == Some(
        FieldValueView::Text(request.discriminator()),
    ));
    assert(fields.drop_first()[0].name == "text"@);
    assert(field_value(fields, "text"@) == Some(FieldValueView::Text(request.text())));
    match request {
        RequestView::ProgressInfo { text, percent } => {
            assert(fields.drop_first().drop_first()[0].name == "percent"@);
            assert(field_value(fields, "percent"@) == Some(
                FieldValueView::Number(Some(clamped(percent as int) as u64)),
            ));
        },
        _ => {},
    }
}

/// The order of the members does not matter to a reader: the members of an
/// event written in the opposite order are read back as the same event.
pub proof fn lemma_fields_order_free(request: RequestView)
    ensures
        request_of_fields(request_fields(request).reverse()) == request_of_fields(
            request_fields(request),
        ),
{
    lemma_words_differ();
    lemma_fields_round_trip(request);
    let fields = request_fields(request).reverse();
    reveal_with_fuel(field_value, 4);
    match request {
        RequestView::ProgressInfo { text, percent } => {
            assert(fields[0].name == "percent"@);
            assert(fields.drop_first()[0].name == "text"@);
            assert(fields.drop_first().drop_first()[0].name == "request"@);
            assert(field_value(fields, "request"@) == Some(
                FieldValueView::Text(request.discriminator()),
            ));
            assert(field_value(fields, "text"@) == Some(FieldValueView::Text(request.text())));
            assert(field_value(fields, "percent"@) == Some(
                FieldValueView::Number(Some(clamped(percent as int) as u64)),
            ));
        },
        _ => {
            assert(fields[0].name == "text"@);
            assert(fields.drop_first()[0].name == "request"@);
            assert(field_value(fields, "request"@) == Some(
                FieldValueView::Text(request.discriminator()),
            ));
            assert(field_value(fields, "text"@) == Some(FieldValueView::Text(request.text())));
        },
    }
}

} // verus!
