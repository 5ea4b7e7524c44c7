//! The preferences page's requests: which endpoint an address names, how
//! saved settings replace the old ones, which of the account's models are
//! offered, what testing the key means, and the JSON text of each answer.
//! Parsing the requests and talking to the service happen outside the
//! library.
use vstd::prelude::*;
use crate::config::Config;
use crate::http_status::{is_success_status, status_display, status_text};
use crate::routing::{endpoint_of, endpoint_path};
use crate::text::{contains_text, escape_double_quotes, escape_quotes, has_substring, lex_le, lex_le_text, same_text};

verus! {

broadcast use vstd::seq_lib::group_seq_properties;

/// The preferences page's endpoints.
#[derive(Debug, Clone, Copy, PartialEq, Eq, Structural)]
pub enum PrefsEndpoint {
    Save,
    FetchModels,
    Test,
    Unknown,
}

pub open spec fn prefs_endpoint_named(path: Seq<char>) -> PrefsEndpoint {
    if path == "save"@ {
        PrefsEndpoint::Save
    } else if path == "fetch_models"@ {
        PrefsEndpoint::FetchModels
    } else if path == "test"@ {
        PrefsEndpoint::Test
    } else {
        PrefsEndpoint::Unknown
    }
}

/// The endpoint a request address names.
pub fn prefs_endpoint(uri: &str) -> (endpoint: PrefsEndpoint)
    ensures
        endpoint == prefs_endpoint_named(endpoint_path(uri@)),
{
    let path = endpoint_of(uri);
    if same_text(path.as_str(), "save") {
        PrefsEndpoint::Save
    } else if same_text(path.as_str(), "fetch_models") {
        PrefsEndpoint::FetchModels
    } else if same_text(path.as_str(), "test") {
        PrefsEndpoint::Test
    } else {
        PrefsEndpoint::Unknown
    }
}

// ---------------------------------------------------------------------------
// Answers
// ---------------------------------------------------------------------------

/// `{"ok":true}`
pub fn ok_json() -> (json: String)
    ensures
        json@ == "{\"ok\":true}"@,
{
    String::from_str("{\"ok\":true}")
}

/// `{"ok":false,"error":"<error>"}`, the error inserted as it is.
pub open spec fn error_json_text(error: Seq<char>) -> Seq<char> {
    "{\"ok\":false,\"error\":\""@ + error + "\"}"@
}

pub fn error_json(error: &str) -> (json: String)
    ensures
        json@ == error_json_text(error@),
{
    let mut json = String::from_str("{\"ok\":false,\"error\":\"");
    json.append(error);
    json.append("\"}");
    json
}

/// The error answer of the connection test: the error with its double quotes
/// escaped.
pub fn escaped_error_json(error: &str) -> (json: String)
    ensures
        json@ == error_json_text(escape_quotes(error@)),
{
    let escaped = escape_double_quotes(error);
    error_json(escaped.as_str())
}

/// The answer to an address naming no endpoint.
pub fn unknown_endpoint_json() -> (json: String)
    ensures
        json@ == error_json_text("unknown endpoint"@),
{
    error_json("unknown endpoint")
}

/// `{"ok":true,"message":"<message>"}`, the message inserted as it is.
pub fn message_json(message: &str) -> (json: String)
    ensures
        json@ == "{\"ok\":true,\"message\":\""@ + message@ + "\"}"@,
{
    let mut json = String::from_str("{\"ok\":true,\"message\":\"");
    json.append(message);
    json.append("\"}");
    json
}

/// The views of a list of strings.
pub open spec fn texts(v: Seq<String>) -> Seq<Seq<char>> {
    v.map_values(|s: String| s@)
}

/// The JSON array of strings that `serde_json` writes for `items`.
pub uninterp spec fn json_string_array(items: Seq<Seq<char>>) -> Seq<char>;

/// Calls `serde_json::to_string` on a list of strings. The contract claims
/// that the text is the one `json_string_array` names for the strings; what
/// that text is is left unsaid. Serializing strings cannot fail (the crate's
/// documentation names only failing `Serialize` impls and maps with
/// non-string keys), so the error arm is never taken.
#[verifier::external_body]
fn to_json_array(items: &Vec<String>) -> (json: String)
    ensures
        json@ == json_string_array(texts(items@)),
{
    match serde_json::to_string(items) {
        Ok(json) => json,
        Err(_) => String::new(),
    }
}

/// `{"ok":true,"models":<array>}` around an already encoded JSON array.
pub fn models_json_with(array: &str) -> (json: String)
    ensures
        json@ == "{\"ok\":true,\"models\":"@ + array@ + "}"@,
{
    let mut json = String::from_str("{\"ok\":true,\"models\":");
    json.append(array);
    json.append("}");
    json
}

/// `{"ok":true,"models":<the models as a JSON array>}`
pub fn models_json(models: &Vec<String>) -> (json: String)
    ensures
        json@ == "{\"ok\":true,\"models\":"@ + json_string_array(texts(models@)) + "}"@,
{
    let array = to_json_array(models);
    models_json_with(array.as_str())
}

// ---------------------------------------------------------------------------
// Saving
// ---------------------------------------------------------------------------

/// The settings after saving the page: the key (even an empty one), model,
/// language and shortcut replace the stored ones.
pub fn apply_saved_settings(
    config: Config,
    api_key: String,
    model: String,
    language: String,
    hotkey: String,
) -> (saved: Config)
    ensures
        saved.api_key == Some(api_key),
        saved.model == model,
        saved.language == language,
        saved.hotkey == hotkey,
{
    let mut config = config;
    config.api_key = Some(api_key);
    config.model = model;
    config.language = language;
    config.hotkey = hotkey;
    config
}

// ---------------------------------------------------------------------------
// Models
// ---------------------------------------------------------------------------

/// The lower-case form of a text, as `str::to_lowercase` gives it.
pub uninterp spec fn lowercase(s: Seq<char>) -> Seq<char>;

/// Calls `str::to_lowercase`. The contract claims that the result is the one
/// `lowercase` names for the text; the Unicode case mapping is left unsaid.
#[verifier::external_body]
fn to_lowercase(s: &str) -> (lower: String)
    ensures
        lower@ == lowercase(s@),
{
    s.to_lowercase()
}

/// A lower-case model id mentions transcription: it contains `whisper` or
/// `transcri`.
pub open spec fn mentions_transcription(lower: Seq<char>) -> bool {
    has_substring(lower, "whisper"@) || has_substring(lower, "transcri"@)
}

/// A model id names a transcription model: in lower case it contains
/// `whisper` or `transcri`.
pub open spec fn is_transcription_model(id: Seq<char>) -> bool {
    mentions_transcription(lowercase(id))
}

/// Whether the lower-case form of a model id mentions transcription.
pub fn lowered_id_mentions_transcription(lower: &str) -> (mentions: bool)
    ensures
        mentions == mentions_transcription(lower@),
{
    contains_text(lower, "whisper") || contains_text(lower, "transcri")
}

/// `lex_le` as a relation.
pub open spec fn text_order() -> spec_fn(Seq<char>, Seq<char>) -> bool {
    |a: Seq<char>, b: Seq<char>| lex_le(a, b)
}

/// The models offered for the account's model ids: the transcription models
/// in lexicographic order, or `whisper-1` alone when there are none.
pub open spec fn offered_models(ids: Seq<Seq<char>>) -> Seq<Seq<char>> {
    let kept = ids.filter(|id: Seq<char>| is_transcription_model(id));
    if kept.len() == 0 {
        seq!["whisper-1"@]
    } else {
        kept.sort_by(text_order())
    }
}

fn names_transcription_model(id: &str) -> (keep: bool)
    ensures
        keep == is_transcription_model(id@),
{
    let lower = to_lowercase(id);
    lowered_id_mentions_transcription(lower.as_str())
}

proof fn lemma_texts_insert(v: Seq<String>, j: int, x: String)
    requires
        0 <= j <= v.len(),
    ensures
        texts(v.insert(j, x)) == texts(v).insert(j, x@),
{
    assert(texts(v.insert(j, x)) =~= texts(v).insert(j, x@));
}

proof fn lemma_texts_push(v: Seq<String>, x: String)
    ensures
        texts(v.push(x)) == texts(v).push(x@),
{
    assert(texts(v.push(x)) =~= texts(v).push(x@));
}

/// The models to offer from the ids the account lists.
pub fn select_transcription_models(ids: Vec<String>) -> (models: Vec<String>)
    ensures
        texts(models@) == offered_models(texts(ids@)),
{
    let ghost input = ids@;
    let ghost pred = |id: Seq<char>| is_transcription_model(id);
    let ghost order = text_order();
    let mut sorted: Vec<String> = Vec::new();
    proof {
        crate::text::lemma_lex_total_ordering();
        reveal(Seq::filter);
    }
    for id in it: ids
        invariant
            it.seq() == input,
            vstd::relations::total_ordering(order),
            order == text_order(),
            pred == (|id: Seq<char>| is_transcription_model(id)),
            vstd::relations::sorted_by(texts(sorted@), order),
            texts(sorted@).to_multiset() == texts(input.take(it.index() as int)).filter(
                pred,
            ).to_multiset(),
    {
        let ghost before = sorted@;
        let ghost prefix = input.take(it.index() as int);
        proof {
            assert(input.take(it.index() + 1) =~= prefix.push(id));
            lemma_texts_push(prefix, id);
            reveal(Seq::filter);
            assert(texts(prefix.push(id)).drop_last() =~= texts(prefix));
        }
        if names_transcription_model(id.as_str()) {
            let mut j = sorted.len();
            while j > 0 && !lex_le_text(sorted[j - 1].as_str(), id.as_str())
                invariant
                    j <= sorted@.len(),
                    sorted@ == before,
                    forall|i: int| j <= i < sorted@.len() ==> !lex_le(#[trigger] sorted@[i]@, id@),
                decreases j,
            {
                j = j - 1;
            }
            proof {
                let t = texts(before);
                let r = t.insert(j as int, id@);
                assert forall|a: int, b: int| 0 <= a < b < r.len() implies #[trigger] order(
                    r[a],
                    r[b],
                ) by {
                    assert(order(r[a], r[b]) == lex_le(r[a], r[b]));
                    if b < j {
                        assert(r[a] == t[a] && r[b] == t[b]);
                        assert(order(t[a], t[b]));
                    } else if a > j {
                        assert(r[a] == t[a - 1] && r[b] == t[b - 1]);
                        assert(order(t[a - 1], t[b - 1]));
                    } else if a == j {
                        assert(r[a] == id@);
                        assert(r[b] == t[b - 1]);
                        assert(t[b - 1] == before[b - 1]@);
                        assert(!lex_le(before[b - 1]@, id@));
                        crate::text::lemma_lex_total(t[b - 1], id@);
                    } else if b == j {
                        assert(r[b] == id@ && r[a] == t[a]);
                        assert(t[j - 1] == before[j - 1]@);
                        assert(lex_le(t[j - 1], id@));
                        if a < j - 1 {
                            assert(order(t[a], t[j - 1]));
                            crate::text::lemma_lex_transitive(t[a], t[j - 1], id@);
                        }
                    } else {
                        assert(r[a] == t[a] && r[b] == t[b - 1]);
                        assert(order(t[a], t[b - 1]));
                    }
                }
                lemma_texts_insert(before, j as int, id);
                vstd::seq_lib::to_multiset_insert(t, j as int, id@);
                vstd::seq_lib::to_multiset_build(texts(prefix).filter(pred), id@);
            }
            sorted.insert(j, id);
        }
    }
    proof {
        assert(input.take(input.len() as int) =~= input);
    }
    if sorted.len() == 0 {
        let mut fallback: Vec<String> = Vec::new();
        fallback.push(String::from_str("whisper-1"));
        proof {
            let kept = texts(input).filter(pred);
            if kept.len() > 0 {
                assert(kept.to_multiset().contains(kept[0]));
                assert(texts(sorted@).to_multiset().len() == 0);
            }
            assert(texts(fallback@) =~= seq!["whisper-1"@]);
        }
        return fallback;
    }
    proof {
        let kept = texts(input).filter(pred);
        kept.lemma_sort_by_ensures(order);
        vstd::seq_lib::lemma_sorted_unique(texts(sorted@), kept.sort_by(order), order);
        if kept.len() == 0 {
            assert(kept.to_multiset().len() == 0);
            assert(texts(sorted@).to_multiset().contains(texts(sorted@)[0]));
        }
    }
    sorted
}

/// Filtering keeps each element the predicate accepts as often as it occurs,
/// and no other.
proof fn lemma_filter_counts(s: Seq<Seq<char>>, p: spec_fn(Seq<char>) -> bool, x: Seq<char>)
    ensures
        s.filter(p).to_multiset().count(x) == if p(x) {
            s.to_multiset().count(x)
        } else {
            0
        },
    decreases s.len(),
{
    if s.len() == 0 {
        reveal(Seq::filter);
        assert(s.filter(p) =~= Seq::<Seq<char>>::empty());
        vstd::seq_lib::to_multiset_contains(s, x);
        vstd::seq_lib::to_multiset_contains(s.filter(p), x);
    } else {
        let init = s.drop_last();
        let last = s.last();
        lemma_filter_counts(init, p, x);
        assert(init.push(last) =~= s);
        init.lemma_filter_push(last, p);
        vstd::seq_lib::to_multiset_build(init, last);
        if p(last) {
            vstd::seq_lib::to_multiset_build(init.filter(p), last);
        }
    }
}

/// What is offered for the account's model ids. When the account lists some
/// transcription model, every transcription model it lists is offered, as
/// many times as it is listed, nothing else is offered, and the offer is in
/// lexicographic order. When it lists none, `whisper-1` alone is offered.
pub proof fn lemma_offered_models(ids: Seq<Seq<char>>)
    ensures
        (exists|i: int| 0 <= i < ids.len() && is_transcription_model(#[trigger] ids[i])) ==> {
            let offered = offered_models(ids);
            &&& forall|x: Seq<char>|
                is_transcription_model(x) ==> #[trigger] offered.to_multiset().count(x)
                    == ids.to_multiset().count(x)
            &&& forall|x: Seq<char>|
                #[trigger] offered.contains(x) ==> is_transcription_model(x) && ids.contains(x)
            &&& forall|i: int, j: int|
                0 <= i < j < offered.len() ==> lex_le(#[trigger] offered[i], #[trigger] offered[j])
        },
        (forall|i: int| 0 <= i < ids.len() ==> !is_transcription_model(#[trigger] ids[i]))
            ==> offered_models(ids) == seq!["whisper-1"@],
{
    let pred = |id: Seq<char>| is_transcription_model(id);
    let kept = ids.filter(pred);
    let order = text_order();
    crate::text::lemma_lex_total_ordering();
    assert(order == (|a: Seq<char>, b: Seq<char>| lex_le(a, b)));
    ids.filter_lemma(pred);
    if exists|i: int| 0 <= i < ids.len() && is_transcription_model(#[trigger] ids[i]) {
        let w = choose|i: int| 0 <= i < ids.len() && is_transcription_model(#[trigger] ids[i]);
        lemma_filter_counts(ids, pred, ids[w]);
        vstd::seq_lib::to_multiset_contains(ids, ids[w]);
        vstd::seq_lib::to_multiset_contains(kept, ids[w]);
        assert(kept.len() > 0);
        let offered = kept.sort_by(order);
        assert(offered_models(ids) == offered);
        kept.lemma_sort_by_ensures(order);
        assert forall|x: Seq<char>| is_transcription_model(x) implies #[trigger] offered.to_multiset().count(x)
            == ids.to_multiset().count(x) by {
            lemma_filter_counts(ids, pred, x);
        }
        assert forall|x: Seq<char>| #[trigger] offered.contains(x) implies is_transcription_model(x)
            && ids.contains(x) by {
            vstd::seq_lib::to_multiset_contains(offered, x);
            vstd::seq_lib::to_multiset_contains(kept, x);
            vstd::seq_lib::to_multiset_contains(ids, x);
            lemma_filter_counts(ids, pred, x);
        }
        assert forall|i: int, j: int| 0 <= i < j < offered.len() implies lex_le(
            #[trigger] offered[i],
            #[trigger] offered[j],
        ) by {
            assert(order(offered[i], offered[j]));
        }
    } else {
        if kept.len() > 0 {
            let x = kept[0];
            assert(pred(x));
            assert(kept.contains(x));
            vstd::seq_lib::to_multiset_contains(kept, x);
            vstd::seq_lib::to_multiset_contains(ids, x);
            lemma_filter_counts(ids, pred, x);
            let k = choose|k: int| 0 <= k < ids.len() && ids[k] == x;
            assert(is_transcription_model(ids[k]));
        }
    }
}

/// The error when listing the account's models failed with `body`.
pub fn models_error(body: &str) -> (error: String)
    ensures
        error@ == "API error: "@ + body@,
{
    let mut error = String::from_str("API error: ");
    error.append(body);
    error
}

// ---------------------------------------------------------------------------
// Testing the key
// ---------------------------------------------------------------------------

/// What the answer to looking up `model` means: the model is available
/// (success), the key is refused (401), or another error naming the status
/// and the body.
pub fn test_api_outcome(status: u16, model: &str, body: &str) -> (outcome: Result<String, String>)
    ensures
        200 <= status < 300 ==> (outcome matches Ok(m) && m@ == "Connection OK. Model '"@ + model@
            + "' is available."@),
        status == 401 ==> (outcome matches Err(e) && e@ == "Invalid API key"@),
        !(200 <= status < 300) && status != 401 ==> (outcome matches Err(e) && e@ == "Error ("@
            + status_text(status) + "): "@ + body@),
{
    if is_success_status(status) {
        let mut m = String::from_str("Connection OK. Model '");
        m.append(model);
        m.append("' is available.");
        Ok(m)
    } else if status == 401 {
        Err(String::from_str("Invalid API key"))
    } else {
        let mut e = String::from_str("Error (");
        let shown = status_display(status);
        e.append(shown.as_str());
        e.append("): ");
        e.append(body);
        Err(e)
    }
}

} // verus!
