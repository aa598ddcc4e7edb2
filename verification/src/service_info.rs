use crate::json::{json_item, json_member, json_parse, json_text, json_view, parse_json, JsonView};
use crate::text::{
    chars_of, contains, find, find_char, spec_contains, spec_find, spec_find_char, spec_trim,
    trim_range,
};
use vstd::prelude::*;
use vstd::string::*;

verus! {

/// The pattern that introduces a field written as a quoted key with a quoted
/// value: the field in double quotes, a colon, a space, a double quote.
pub open spec fn quoted_pattern(field: Seq<char>) -> Seq<char> {
    seq!['"'] + field + seq!['"', ':', ' ', '"']
}

/// The pattern that introduces a field written as a label: the field, a
/// colon, a space.
pub open spec fn labeled_pattern(field: Seq<char>) -> Seq<char> {
    field + seq![':', ' ']
}

/// The pattern that introduces a field written as a heading: the field, then
/// a line break.
pub open spec fn heading_pattern(field: Seq<char>) -> Seq<char> {
    field + seq!['\n']
}

/// Where the value that `rest` starts with ends: at the first double quote;
/// without one, at the first line break; without either, at the end.
pub open spec fn value_end(rest: Seq<char>) -> int {
    match spec_find_char(rest, '"') {
        Some(i) => i,
        None => match spec_find_char(rest, '\n') {
            Some(i) => i,
            None => rest.len() as int,
        },
    }
}

/// The value that follows the first occurrence of `pattern` in `text`, with
/// the white space around it removed, where the pattern occurs and something
/// is left of the value.
pub open spec fn value_after(text: Seq<char>, pattern: Seq<char>) -> Option<Seq<char>> {
    match spec_find(text, pattern) {
        Some(start) => {
            let rest = text.skip(start + pattern.len());
            let value = spec_trim(rest.take(value_end(rest)));
            if value.len() > 0 {
                Some(value)
            } else {
                None
            }
        },
        None => None,
    }
}

/// The value of `field` in a free-form reply: what follows the field as a
/// quoted key, else as a label, else as a heading, the first of these that
/// gives a value.
pub open spec fn spec_extract_field(text: Seq<char>, field: Seq<char>) -> Option<Seq<char>> {
    match value_after(text, quoted_pattern(field)) {
        Some(value) => Some(value),
        None => match value_after(text, labeled_pattern(field)) {
            Some(value) => Some(value),
            None => value_after(text, heading_pattern(field)),
        },
    }
}

/// The positions between which the value after `pattern` stands in `text`.
fn value_range(text: &Vec<char>, pattern: &Vec<char>) -> (range: Option<(usize, usize)>)
    ensures
        match range {
            Some((from, upto)) => from <= upto <= text@.len() && value_after(text@, pattern@)
                == Some(text@.subrange(from as int, upto as int)),
            None => value_after(text@, pattern@) is None,
        },
{
    match find(text, pattern) {
        None => None,
        Some(start) => {
            let len: usize = text.len();
            let begin: usize = start + pattern.len();
            let ghost rest = text@.skip(begin as int);
            let end: usize = match find_char(text, '"', begin) {
                Some(i) => i,
                None => match find_char(text, '\n', begin) {
                    Some(i) => i,
                    None => len,
                },
            };
            assert(end - begin == value_end(rest));
            assert(rest.take(value_end(rest)) =~= text@.subrange(begin as int, end as int));
            let (from, upto) = trim_range(text, begin, end);
            if from < upto {
                Some((from, upto))
            } else {
                None
            }
        },
    }
}

/// The characters of `before`, then those of `field`, then those of `after`.
fn pattern_of(before: &str, field: &Vec<char>, after: &str) -> (pattern: Vec<char>)
    ensures
        pattern@ == before@ + field@ + after@,
{
    let mut pattern: Vec<char> = chars_of(before);
    let mut i: usize = 0;
    while i < field.len()
        invariant
            i <= field@.len(),
            pattern@ == before@ + field@.take(i as int),
        decreases field@.len() - i,
    {
        pattern.push(field[i]);
        assert(field@.take(i as int).push(field@[i as int]) =~= field@.take(i as int + 1));
        i += 1;
    }
    assert(field@.take(field@.len() as int) =~= field@);
    let mut tail: Vec<char> = chars_of(after);
    pattern.append(&mut tail);
    pattern
}

/// Reads the value of `field` out of a reply that is not well-formed JSON.
/// The field is looked for as a quoted key followed by a quoted value, then
/// as a label followed by a colon and a space, then as a heading on a line
/// of its own; only the first occurrence of each form is considered. The
/// value runs up to the next double quote, or without one to the end of the
/// line, and is returned without the white space around it. A form whose
/// value is empty is passed over.
pub fn extract_field_from_text(text: &str, field: &str) -> (value: Option<String>)
    ensures
        match value {
            Some(v) => spec_extract_field(text@, field@) == Some(v@),
            None => spec_extract_field(text@, field@) is None,
        },
{
    let chars: Vec<char> = chars_of(text);
    let name: Vec<char> = chars_of(field);
    proof {
        reveal_strlit("\"");
        reveal_strlit("\": \"");
        reveal_strlit("");
        reveal_strlit(": ");
        reveal_strlit("\n");
    }
    let quoted: Vec<char> = pattern_of("\"", &name, "\": \"");
    assert(quoted@ =~= quoted_pattern(field@));
    let mut range: Option<(usize, usize)> = value_range(&chars, &quoted);
    if range.is_none() {
        let labeled: Vec<char> = pattern_of("", &name, ": ");
        assert(labeled@ =~= labeled_pattern(field@));
        range = value_range(&chars, &labeled);
    }
    if range.is_none() {
        let heading: Vec<char> = pattern_of("", &name, "\n");
        assert(heading@ =~= heading_pattern(field@));
        range = value_range(&chars, &heading);
    }
    match range {
        Some((from, upto)) => Some(String::from_str(text.substring_char(from, upto))),
        None => None,
    }
}

/// What is known about one system service.
#[derive(Debug, Clone, PartialEq, Eq)]
pub struct ServiceInfo {
    pub description: Option<String>,
    pub explained: Option<String>,
    pub recommendation: Option<String>,
}

/// The content of a [`ServiceInfo`].
pub struct ServiceInfoView {
    pub description: Option<Seq<char>>,
    pub explained: Option<Seq<char>>,
    pub recommendation: Option<Seq<char>>,
}

/// The text that an optional string holds.
pub open spec fn option_text(text: Option<String>) -> Option<Seq<char>> {
    match text {
        Some(t) => Some(t@),
        None => None,
    }
}

impl View for ServiceInfo {
    type V = ServiceInfoView;

    open spec fn view(&self) -> ServiceInfoView {
        ServiceInfoView {
            description: option_text(self.description),
            explained: option_text(self.explained),
            recommendation: option_text(self.recommendation),
        }
    }
}

impl ServiceInfoView {
    /// Whether the information says more than what the service is.
    pub open spec fn has_details(self) -> bool {
        self.explained is Some || self.recommendation is Some
    }
}

fn copy_text(text: &Option<String>) -> (copy: Option<String>)
    ensures
        option_text(copy) == option_text(*text),
{
    match text {
        Some(t) => Some(t.clone()),
        None => None,
    }
}

impl ServiceInfo {
    /// Whether the information says more than what the service is.
    pub fn has_details(&self) -> (detailed: bool)
        ensures
            detailed == self@.has_details(),
    {
        self.explained.is_some() || self.recommendation.is_some()
    }

    /// The same information once more.
    pub fn copy(&self) -> (copy: ServiceInfo)
        ensures
            copy@ == self@,
    {
        ServiceInfo {
            description: copy_text(&self.description),
            explained: copy_text(&self.explained),
            recommendation: copy_text(&self.recommendation),
        }
    }
}

/// What the question about a service starts with, up to the service's name.
pub const PROMPT_HEAD: &'static str = "What is the Windows service \"";

/// What the question about a service goes on with after the service's name.
pub const PROMPT_TAIL: &'static str =
    "\"?\n\nPlease provide a JSON response with exactly these three keys:\n- \"description\": A brief description of what this service does\n- \"explained\": A concise explanation in 2-3 lines of its purpose and functionality\n- \"recommendation\": A bullet-point list covering whether to disable it, what would be affected, and safe disabling scenarios\n\nExample format:\n{\n  \"description\": \"Brief description here\",\n  \"explained\": \"Concise explanation here\",\n  \"recommendation\": \"\u{2022} Point 1\\n\u{2022} Point 2\\n\u{2022} Point 3\"\n}\n\nReturn only valid JSON, no additional text.";

/// The advice given for a service of which nothing is known.
pub const GENERIC_RECOMMENDATION: &'static str =
    "\u{2022} Research service function before changes\n\u{2022} Many services are essential for stability\n\u{2022} Consider functionality impact before disabling\n\u{2022} Use reload button for detailed AI analysis";

/// The question put to the assistant about the service called
/// `service_name`.
pub fn ai_prompt(service_name: &str) -> (prompt: String)
    ensures
        prompt@ == PROMPT_HEAD@ + service_name@ + PROMPT_TAIL@,
{
    String::from_str(PROMPT_HEAD).concat(service_name).concat(PROMPT_TAIL)
}

/// The message of the error for a response without the assistant's reply.
pub open spec fn missing_content_message() -> Seq<char> {
    "Invalid AI response format: missing content"@
}

/// The place of the assistant's reply in a response: the text `content` of
/// the `message` of the first of the `choices`.
pub open spec fn spec_response_content(response: JsonView) -> Option<Seq<char>> {
    response.member("choices"@).item(0).member("message"@).member("content"@).text()
}

/// The assistant's reply in a response, or the error for a response that
/// holds none.
pub fn response_content(response: &serde_json::Value) -> (content: Result<String, String>)
    ensures
        match content {
            Ok(reply) => spec_response_content(json_view(*response)) == Some(reply@),
            Err(message) => spec_response_content(json_view(*response)) is None && message@
                == missing_content_message(),
        },
{
    let choices = json_member(response, "choices");
    let first = json_item(choices, 0);
    let message = json_member(first, "message");
    let content = json_member(message, "content");
    match json_text(content) {
        Some(reply) => Ok(String::from_str(reply)),
        None => Err(String::from_str("Invalid AI response format: missing content")),
    }
}

/// The information in a reply that is a JSON document: the texts of its
/// three members, each missing where the document has no such text.
pub open spec fn info_from_json(document: JsonView) -> ServiceInfoView {
    ServiceInfoView {
        description: document.member("description"@).text(),
        explained: document.member("explained"@).text(),
        recommendation: document.member("recommendation"@).text(),
    }
}

/// `found`, or `fallback` where nothing was found.
pub open spec fn found_or(found: Option<Seq<char>>, fallback: Seq<char>) -> Option<Seq<char>> {
    match found {
        Some(value) => Some(value),
        None => Some(fallback),
    }
}

/// The information in a reply that is free-form text: the three fields as
/// far as they can be read out of it, and a stock text for each of the
/// others.
pub open spec fn info_from_text(reply: Seq<char>) -> ServiceInfoView {
    ServiceInfoView {
        description: found_or(
            spec_extract_field(reply, "description"@),
            "AI-generated description"@,
        ),
        explained: found_or(spec_extract_field(reply, "explained"@), "AI-generated explanation"@),
        recommendation: found_or(
            spec_extract_field(reply, "recommendation"@),
            "AI-generated recommendation"@,
        ),
    }
}

/// The information in the assistant's reply: read as a JSON document where
/// the reply is one, else out of the text.
pub open spec fn spec_service_info(reply: Seq<char>) -> ServiceInfoView {
    match json_parse(reply) {
        Some(document) => info_from_json(document),
        None => info_from_text(reply),
    }
}

fn member_text(document: &serde_json::Value, key: &str) -> (text: Option<String>)
    ensures
        option_text(text) == json_view(*document).member(key@).text(),
{
    match json_text(json_member(document, key)) {
        Some(text) => Some(String::from_str(text)),
        None => None,
    }
}

/// Reads the information about a service out of a reply that is a JSON
/// document.
pub fn service_info_from_json(document: &serde_json::Value) -> (info: ServiceInfo)
    ensures
        info@ == info_from_json(json_view(*document)),
{
    ServiceInfo {
        description: member_text(document, "description"),
        explained: member_text(document, "explained"),
        recommendation: member_text(document, "recommendation"),
    }
}

fn field_or(reply: &str, field: &str, fallback: &str) -> (text: Option<String>)
    ensures
        option_text(text) == found_or(spec_extract_field(reply@, field@), fallback@),
{
    match extract_field_from_text(reply, field) {
        Some(value) => Some(value),
        None => Some(String::from_str(fallback)),
    }
}

/// Reads the information about a service out of a reply that is free-form
/// text.
pub fn service_info_from_text(reply: &str) -> (info: ServiceInfo)
    ensures
        info@ == info_from_text(reply@),
{
    ServiceInfo {
        description: field_or(reply, "description", "AI-generated description"),
        explained: field_or(reply, "explained", "AI-generated explanation"),
        recommendation: field_or(reply, "recommendation", "AI-generated recommendation"),
    }
}

/// Reads the information about a service out of the assistant's reply.
pub fn service_info_from_reply(reply: &str) -> (info: ServiceInfo)
    ensures
        info@ == spec_service_info(reply@),
{
    match parse_json(reply) {
        Ok(document) => service_info_from_json(&document),
        Err(_) => service_info_from_text(reply),
    }
}

/// The information given for a service of which nothing is known.
pub open spec fn spec_generic_info(service_name: Seq<char>) -> ServiceInfoView {
    ServiceInfoView {
        description: Some("Windows service: "@ + service_name),
        explained: Some(
            "Windows system service '"@ + service_name
                + "'. Performs specific OS functions. Use reload for AI-generated detailed explanation."@,
        ),
        recommendation: Some(GENERIC_RECOMMENDATION@),
    }
}

pub fn generic_service_info(service_name: &str) -> (info: ServiceInfo)
    ensures
        info@ == spec_generic_info(service_name@),
{
    ServiceInfo {
        description: Some(String::from_str("Windows service: ").concat(service_name)),
        explained: Some(
            String::from_str("Windows system service '").concat(service_name).concat(
                "'. Performs specific OS functions. Use reload for AI-generated detailed explanation.",
            ),
        ),
        recommendation: Some(String::from_str(GENERIC_RECOMMENDATION)),
    }
}

/// `text` in lower case, as `str::to_lowercase` gives it.
pub uninterp spec fn lowercase(text: Seq<char>) -> Seq<char>;

/// `str::to_lowercase` of the standard library. The result depends on the
/// text alone; this library does not spell out the case mapping.
#[verifier::external_body]
fn to_lowercase(text: &str) -> (lower: String)
    ensures
        lower@ == lowercase(text@),
{
    text.to_lowercase()
}

/// One entry of the table of known services.
#[derive(Debug, Clone, PartialEq, Eq)]
pub struct ServiceEntry {
    pub name: String,
    pub info: ServiceInfo,
}

/// Whether the entry called `key` is about the service called
/// `service_name` when capitals are disregarded: one name holds the other.
pub open spec fn names_overlap(service_name: Seq<char>, key: Seq<char>) -> bool {
    spec_contains(lowercase(service_name), lowercase(key)) || spec_contains(
        lowercase(key),
        lowercase(service_name),
    )
}

/// `index` is the first entry of `defaults` with exactly the name
/// `service_name`.
pub open spec fn is_first_exact(
    defaults: Seq<ServiceEntry>,
    service_name: Seq<char>,
    index: int,
) -> bool {
    &&& 0 <= index < defaults.len()
    &&& defaults[index].name@ == service_name
    &&& forall|j: int| 0 <= j < index ==> defaults[j].name@ != service_name
}

/// No entry of `defaults` has exactly the name `service_name`.
pub open spec fn none_exact(defaults: Seq<ServiceEntry>, service_name: Seq<char>) -> bool {
    forall|j: int| 0 <= j < defaults.len() ==> defaults[j].name@ != service_name
}

/// `index` is the first entry of `defaults` whose name overlaps with
/// `service_name`.
pub open spec fn is_first_overlap(
    defaults: Seq<ServiceEntry>,
    service_name: Seq<char>,
    index: int,
) -> bool {
    &&& 0 <= index < defaults.len()
    &&& names_overlap(service_name, defaults[index].name@)
    &&& forall|j: int| 0 <= j < index ==> !names_overlap(service_name, defaults[j].name@)
}

/// No entry of `defaults` has a name that overlaps with `service_name`.
pub open spec fn none_overlap(defaults: Seq<ServiceEntry>, service_name: Seq<char>) -> bool {
    forall|j: int| 0 <= j < defaults.len() ==> !names_overlap(service_name, defaults[j].name@)
}

/// Looks a service up in the table of known services: the first entry of
/// exactly that name; without one, the first entry whose name holds the
/// service's name or is held by it, capitals disregarded; without one, the
/// information given for an unknown service.
pub fn get_default_service_info(service_name: &str, defaults: &Vec<ServiceEntry>) -> (info:
    ServiceInfo)
    ensures
        ({
            ||| exists|i: int|
                is_first_exact(defaults@, service_name@, i) && info@ == defaults@[i].info@
            ||| none_exact(defaults@, service_name@) && exists|i: int|
                is_first_overlap(defaults@, service_name@, i) && info@ == defaults@[i].info@
            ||| none_exact(defaults@, service_name@) && none_overlap(defaults@, service_name@)
                && info@ == spec_generic_info(service_name@)
        }),
{
    let wanted: String = String::from_str(service_name);
    let mut i: usize = 0;
    while i < defaults.len()
        invariant
            i <= defaults@.len(),
            wanted@ == service_name@,
            forall|j: int| 0 <= j < i ==> defaults@[j].name@ != service_name@,
        decreases defaults@.len() - i,
    {
        if defaults[i].name.eq(&wanted) {
            assert(is_first_exact(defaults@, service_name@, i as int));
            return defaults[i].info.copy();
        }
        i += 1;
    }
    let lower_name: String = to_lowercase(service_name);
    let service_lower: Vec<char> = chars_of(lower_name.as_str());
    let mut k: usize = 0;
    while k < defaults.len()
        invariant
            k <= defaults@.len(),
            service_lower@ == lowercase(service_name@),
            none_exact(defaults@, service_name@),
            forall|j: int| 0 <= j < k ==> !names_overlap(service_name@, defaults@[j].name@),
        decreases defaults@.len() - k,
    {
        let lower_key: String = to_lowercase(defaults[k].name.as_str());
        let key_lower: Vec<char> = chars_of(lower_key.as_str());
        if contains(&service_lower, &key_lower) || contains(&key_lower, &service_lower) {
            assert(is_first_overlap(defaults@, service_name@, k as int));
            return defaults[k].info.copy();
        }
        k += 1;
    }
    generic_service_info(service_name)
}

/// The name under which a service is known: its name up to the first
/// underscore, which sets off the suffix of a per-user instance.
pub open spec fn spec_base_name(name: Seq<char>) -> Seq<char> {
    match spec_find_char(name, '_') {
        Some(i) => name.take(i),
        None => name,
    }
}

pub fn base_service_name(name: &str) -> (base: String)
    ensures
        base@ == spec_base_name(name@),
{
    let chars: Vec<char> = chars_of(name);
    assert(chars@.skip(0) =~= chars@);
    match find_char(&chars, '_', 0) {
        Some(i) => {
            assert(name@.subrange(0, i as int) =~= name@.take(i as int));
            String::from_str(name.substring_char(0, i))
        },
        None => String::from_str(name),
    }
}

/// The word for a service's state, by the number the system reports.
pub open spec fn spec_service_status(state: u32) -> Seq<char> {
    if state == 4 {
        "Running"@
    } else if state == 1 {
        "Stopped"@
    } else if state == 2 {
        "Start Pending"@
    } else if state == 3 {
        "Stop Pending"@
    } else if state == 6 {
        "Pause Pending"@
    } else if state == 7 {
        "Paused"@
    } else {
        "Unknown"@
    }
}

pub fn service_status_str(state: u32) -> (word: &'static str)
    ensures
        word@ == spec_service_status(state),
{
    if state == 4 {
        "Running"
    } else if state == 1 {
        "Stopped"
    } else if state == 2 {
        "Start Pending"
    } else if state == 3 {
        "Stop Pending"
    } else if state == 6 {
        "Pause Pending"
    } else if state == 7 {
        "Paused"
    } else {
        "Unknown"
    }
}

/// The word for the way a service is started, by the number the system
/// reports.
pub open spec fn spec_startup_type(start_type: u32) -> Seq<char> {
    if start_type == 2 {
        "Automatic"@
    } else if start_type == 3 {
        "Manual"@
    } else if start_type == 4 {
        "Disabled"@
    } else if start_type == 0 {
        "Boot"@
    } else if start_type == 1 {
        "System"@
    } else {
        "Unknown"@
    }
}

pub fn startup_type_str(start_type: u32) -> (word: &'static str)
    ensures
        word@ == spec_startup_type(start_type),
{
    if start_type == 2 {
        "Automatic"
    } else if start_type == 3 {
        "Manual"
    } else if start_type == 4 {
        "Disabled"
    } else if start_type == 0 {
        "Boot"
    } else if start_type == 1 {
        "System"
    } else {
        "Unknown"
    }
}

/// The information shown for a service and whether it is to be remembered:
/// what is already known where that says more than what the service is;
/// else what the table of known services gives, which is remembered where
/// nothing was known before.
pub open spec fn spec_resolved(known: Option<ServiceInfoView>, fallback: ServiceInfoView) -> (
    ServiceInfoView,
    bool,
) {
    match known {
        Some(info) => if info.has_details() {
            (info, false)
        } else {
            (fallback, false)
        },
        None => (fallback, true),
    }
}

/// Decides what is shown for a service, given what is already known about
/// it, if anything, and what the table of known services gives. Returns the
/// information and whether it is to be remembered.
pub fn resolve_service_info(known: Option<&ServiceInfo>, fallback: ServiceInfo) -> (resolved: (
    ServiceInfo,
    bool,
))
    ensures
        (resolved.0@, resolved.1) == spec_resolved(
            match known {
                Some(info) => Some(info@),
                None => None,
            },
            fallback@,
        ),
{
    match known {
        Some(info) => {
            if info.has_details() {
                (info.copy(), false)
            } else {
                (fallback, false)
            }
        },
        None => (fallback, true),
    }
}

/// The longest time that the system's clock can tell, in nanoseconds.
pub const LONGEST_TIME: u128 = 18446744073709551615999999999;

/// Whether the list of services is to be read anew: where it is empty, or
/// older than it may get. `age` is the time since the list was read, where
/// the clock can tell, and counts as the longest time where it cannot; both
/// times are in nanoseconds.
pub open spec fn spec_cache_is_stale(entries: nat, age: Option<u128>, ttl: u128) -> bool {
    entries == 0 || match age {
        Some(age) => age > ttl,
        None => LONGEST_TIME > ttl,
    }
}

pub fn cache_is_stale(entries: usize, age: Option<u128>, ttl: u128) -> (stale: bool)
    ensures
        stale == spec_cache_is_stale(entries as nat, age, ttl),
{
    entries == 0 || match age {
        Some(age) => age > ttl,
        None => LONGEST_TIME > ttl,
    }
}

} // verus!
