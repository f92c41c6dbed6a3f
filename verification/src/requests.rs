//! The requests sent to the messaging client.

use crate::json::{field, json_text, object, render, text, Json, JsonView};
use crate::text::{chars_of, string_of, strip_trailing, without_trailing};
use vstd::prelude::*;
use vstd::string::StringExecFns;

verus! {

/// The emoji that a reaction carries.
pub const REACTION_EMOJI: &'static str = "👍";

/// What the service answers to an administrative command.
pub const STORAGE_NOTICE: &'static str =
    "ℹ️ Database storage has been disabled for performance reasons.";

/// The texts of a vector of strings.
pub open spec fn texts(items: Seq<String>) -> Seq<Seq<char>> {
    Seq::new(items.len(), |i: int| items[i]@)
}

/// The field of `fields` that an object renders for `key`: the last one
/// with that key.
pub open spec fn last_field(fields: Seq<(Seq<char>, JsonView)>, key: Seq<char>) -> Option<JsonView>
    decreases fields.len(),
{
    if fields.len() == 0 {
        None
    } else if fields.last().0 == key {
        Some(fields.last().1)
    } else {
        last_field(fields.drop_last(), key)
    }
}

/// The member of the object `doc` under `key`.
pub open spec fn member(doc: JsonView, key: Seq<char>) -> Option<JsonView> {
    match doc {
        JsonView::Object(fields) => last_field(fields, key),
        _ => None,
    }
}

/// The reaction request in the schema with a typed reaction.
pub open spec fn typed_reaction_view(chat_id: i64, message_id: i64) -> JsonView {
    JsonView::Object(
        seq![
            ("@type"@, JsonView::Text("addMessageReaction"@)),
            ("chat_id"@, JsonView::Integer(chat_id)),
            ("message_id"@, JsonView::Integer(message_id)),
            (
                "reaction_type"@,
                JsonView::Object(
                    seq![
                        ("@type"@, JsonView::Text("reactionTypeEmoji"@)),
                        ("emoji"@, JsonView::Text(REACTION_EMOJI@)),
                    ],
                ),
            ),
            ("is_big"@, JsonView::Flag(false)),
        ],
    )
}

/// The reaction request in the older schema with a bare reaction string.
pub open spec fn legacy_reaction_view(chat_id: i64, message_id: i64) -> JsonView {
    JsonView::Object(
        seq![
            ("@type"@, JsonView::Text("addMessageReaction"@)),
            ("chat_id"@, JsonView::Integer(chat_id)),
            ("message_id"@, JsonView::Integer(message_id)),
            ("reaction"@, JsonView::Text(REACTION_EMOJI@)),
            ("is_big"@, JsonView::Flag(false)),
        ],
    )
}

/// The request that sends the plain text `body` to a chat.
pub open spec fn text_message_view(chat_id: i64, body: Seq<char>) -> JsonView {
    JsonView::Object(
        seq![
            ("@type"@, JsonView::Text("sendMessage"@)),
            ("chat_id"@, JsonView::Integer(chat_id)),
            (
                "input_message_content"@,
                JsonView::Object(
                    seq![
                        ("@type"@, JsonView::Text("inputMessageText"@)),
                        (
                            "text"@,
                            JsonView::Object(
                                seq![
                                    ("@type"@, JsonView::Text("formattedText"@)),
                                    ("text"@, JsonView::Text(body)),
                                ],
                            ),
                        ),
                    ],
                ),
            ),
        ],
    )
}

/// A request of the kind `kind` with one text field.
pub open spec fn answer_view(kind: Seq<char>, key: Seq<char>, value: Seq<char>) -> JsonView {
    JsonView::Object(seq![("@type"@, JsonView::Text(kind)), (key, JsonView::Text(value))])
}

/// A request of the kind `kind` with one integer field.
pub open spec fn query_view(kind: Seq<char>, key: Seq<char>, value: i64) -> JsonView {
    JsonView::Object(seq![("@type"@, JsonView::Text(kind)), (key, JsonView::Integer(value))])
}

/// The directory for the client's files beside the data directory
/// `data_dir`: its name without trailing slashes, then `_files`.
pub open spec fn files_directory_of(data_dir: Seq<char>) -> Seq<char> {
    without_trailing(data_dir, "/"@) + "_files"@
}

/// The request that hands the client its parameters.
pub open spec fn client_parameters_view(
    data_dir: Seq<char>,
    api_id: i32,
    api_hash: Seq<char>,
) -> JsonView {
    JsonView::Object(
        seq![
            ("@type"@, JsonView::Text("setTdlibParameters"@)),
            ("database_directory"@, JsonView::Text(data_dir)),
            ("files_directory"@, JsonView::Text(files_directory_of(data_dir))),
            ("database_encryption_key"@, JsonView::Text(""@)),
            ("use_test_dc"@, JsonView::Flag(false)),
            ("api_id"@, JsonView::Integer(api_id as i64)),
            ("api_hash"@, JsonView::Text(api_hash)),
            ("system_language_code"@, JsonView::Text("en"@)),
            ("device_model"@, JsonView::Text("ReactionBot"@)),
            ("system_version"@, JsonView::Text("1.0"@)),
            ("application_version"@, JsonView::Text("1.0"@)),
            ("enable_storage_optimizer"@, JsonView::Flag(true)),
            ("ignore_file_names"@, JsonView::Flag(false)),
            ("use_file_database"@, JsonView::Flag(true)),
            ("use_chat_info_database"@, JsonView::Flag(true)),
            ("use_message_database"@, JsonView::Flag(true)),
            ("use_secret_chats"@, JsonView::Flag(false)),
        ],
    )
}

/// `ids` with each identifier kept once, at its first place.
pub open spec fn distinct(ids: Seq<i64>) -> Seq<i64>
    decreases ids.len(),
{
    if ids.len() == 0 {
        ids
    } else {
        let rest = distinct(ids.drop_last());
        if rest.contains(ids.last()) {
            rest
        } else {
            rest.push(ids.last())
        }
    }
}

/// Keeping each identifier once loses none and repeats none.
pub proof fn lemma_distinct(ids: Seq<i64>)
    ensures
        distinct(ids).no_duplicates(),
        forall|id: i64| distinct(ids).contains(id) <==> ids.contains(id),
    decreases ids.len(),
{
    if ids.len() > 0 {
        let head = ids.drop_last();
        let rest = distinct(head);
        lemma_distinct(head);
        assert forall|id: i64| distinct(ids).contains(id) <==> ids.contains(id) by {
            if ids.contains(id) {
                let k = choose|k: int| 0 <= k < ids.len() && ids[k] == id;
                if k < head.len() {
                    assert(head[k] == id);
                    assert(head.contains(id));
                    assert(rest.contains(id));
                    let j = choose|j: int| 0 <= j < rest.len() && rest[j] == id;
                    assert(distinct(ids)[j] == id);
                } else if !rest.contains(ids.last()) {
                    assert(distinct(ids)[rest.len() as int] == id);
                }
            }
            if distinct(ids).contains(id) {
                let j = choose|j: int| 0 <= j < distinct(ids).len() && distinct(ids)[j] == id;
                if j < rest.len() {
                    assert(rest[j] == id);
                    assert(rest.contains(id));
                    assert(head.contains(id));
                    let k = choose|k: int| 0 <= k < head.len() && head[k] == id;
                    assert(ids[k] == id);
                } else {
                    assert(ids[ids.len() - 1] == id);
                }
            }
        }
    }
}

/// The requests sent once the client is ready: one for the chat list, then
/// one for the available reactions of each chat in `chats`, a chat that is
/// listed more than once being asked for once.
pub open spec fn ready_requests_view(chats: Seq<i64>) -> Seq<Seq<char>> {
    seq![json_text(query_view("getChats"@, "limit"@, 100))] + Seq::new(
        distinct(chats).len(),
        |i: int|
            json_text(query_view("getChatAvailableReactions"@, "chat_id"@, distinct(chats)[i])),
    )
}

/// The two reaction requests differ, and each names the chat and the
/// message that it was built for.
pub proof fn lemma_reaction_requests(chat_id: i64, message_id: i64)
    ensures
        typed_reaction_view(chat_id, message_id) != legacy_reaction_view(chat_id, message_id),
        member(typed_reaction_view(chat_id, message_id), "chat_id"@) == Some(
            JsonView::Integer(chat_id),
        ),
        member(typed_reaction_view(chat_id, message_id), "message_id"@) == Some(
            JsonView::Integer(message_id),
        ),
        member(legacy_reaction_view(chat_id, message_id), "chat_id"@) == Some(
            JsonView::Integer(chat_id),
        ),
        member(legacy_reaction_view(chat_id, message_id), "message_id"@) == Some(
            JsonView::Integer(message_id),
        ),
        member(typed_reaction_view(chat_id, message_id), "reaction"@) is None,
        member(legacy_reaction_view(chat_id, message_id), "reaction_type"@) is None,
{
    reveal_strlit("@type");
    reveal_strlit("chat_id");
    reveal_strlit("message_id");
    reveal_strlit("reaction_type");
    reveal_strlit("reaction");
    reveal_strlit("is_big");
    let typed = typed_reaction_view(chat_id, message_id)->Object_0;
    let legacy = legacy_reaction_view(chat_id, message_id)->Object_0;
    assert(typed[0].0.len() == 5 && legacy[0].0.len() == 5);
    assert(typed[1].0.len() == 7 && legacy[1].0.len() == 7);
    assert(typed[2].0.len() == 10 && legacy[2].0.len() == 10);
    assert(typed[3].0.len() == 13 && legacy[3].0.len() == 8);
    assert(typed[4].0.len() == 6 && legacy[4].0.len() == 6);
    lemma_last_field_at(typed, 1, "chat_id"@);
    lemma_last_field_at(typed, 2, "message_id"@);
    lemma_last_field_at(legacy, 1, "chat_id"@);
    lemma_last_field_at(legacy, 2, "message_id"@);
    lemma_last_field_absent(typed, "reaction"@);
    lemma_last_field_absent(legacy, "reaction_type"@);
}

/// Where exactly one field has the key, it is the one found.
proof fn lemma_last_field_at(fields: Seq<(Seq<char>, JsonView)>, at: int, key: Seq<char>)
    requires
        0 <= at < fields.len(),
        fields[at].0 == key,
        forall|j: int| at < j < fields.len() ==> fields[j].0 != key,
    ensures
        last_field(fields, key) == Some(fields[at].1),
    decreases fields.len(),
{
    if at < fields.len() - 1 {
        lemma_last_field_at(fields.drop_last(), at, key);
    }
}

/// Where no field has the key, none is found.
proof fn lemma_last_field_absent(fields: Seq<(Seq<char>, JsonView)>, key: Seq<char>)
    requires
        forall|j: int| 0 <= j < fields.len() ==> fields[j].0 != key,
    ensures
        last_field(fields, key) is None,
    decreases fields.len(),
{
    if fields.len() > 0 {
        lemma_last_field_absent(fields.drop_last(), key);
    }
}

/// The reaction request in the schema with a typed reaction.
pub fn typed_reaction(chat_id: i64, message_id: i64) -> (r: Json)
    ensures
        r@ == typed_reaction_view(chat_id, message_id),
{
    let kind = object(
        vec![field("@type", text("reactionTypeEmoji")), field("emoji", text(REACTION_EMOJI))],
    );
    assert(kind@->Object_0 =~= seq![
        ("@type"@, JsonView::Text("reactionTypeEmoji"@)),
        ("emoji"@, JsonView::Text(REACTION_EMOJI@)),
    ]);
    let r = object(
        vec![
            field("@type", text("addMessageReaction")),
            field("chat_id", Json::Integer(chat_id)),
            field("message_id", Json::Integer(message_id)),
            field("reaction_type", kind),
            field("is_big", Json::Flag(false)),
        ],
    );
    assert(r@->Object_0 =~= typed_reaction_view(chat_id, message_id)->Object_0);
    r
}

/// The reaction request in the older schema with a bare reaction string.
pub fn legacy_reaction(chat_id: i64, message_id: i64) -> (r: Json)
    ensures
        r@ == legacy_reaction_view(chat_id, message_id),
{
    let r = object(
        vec![
            field("@type", text("addMessageReaction")),
            field("chat_id", Json::Integer(chat_id)),
            field("message_id", Json::Integer(message_id)),
            field("reaction", text(REACTION_EMOJI)),
            field("is_big", Json::Flag(false)),
        ],
    );
    assert(r@->Object_0 =~= legacy_reaction_view(chat_id, message_id)->Object_0);
    r
}

/// The two payloads that express one reaction to a message, the typed
/// schema first.
pub fn reaction_requests(chat_id: i64, message_id: i64) -> (r: (String, String))
    ensures
        r.0@ == json_text(typed_reaction_view(chat_id, message_id)),
        r.1@ == json_text(legacy_reaction_view(chat_id, message_id)),
{
    (render(&typed_reaction(chat_id, message_id)), render(&legacy_reaction(chat_id, message_id)))
}

/// The request that sends the plain text `body` to a chat.
pub fn text_message(chat_id: i64, body: &str) -> (r: Json)
    ensures
        r@ == text_message_view(chat_id, body@),
{
    let formatted = object(vec![field("@type", text("formattedText")), field("text", text(body))]);
    assert(formatted@->Object_0 =~= seq![
        ("@type"@, JsonView::Text("formattedText"@)),
        ("text"@, JsonView::Text(body@)),
    ]);
    let content = object(
        vec![field("@type", text("inputMessageText")), field("text", formatted)],
    );
    assert(content@->Object_0 =~= seq![
        ("@type"@, JsonView::Text("inputMessageText"@)),
        ("text"@, formatted@),
    ]);
    let r = object(
        vec![
            field("@type", text("sendMessage")),
            field("chat_id", Json::Integer(chat_id)),
            field("input_message_content", content),
        ],
    );
    assert(r@->Object_0 =~= text_message_view(chat_id, body@)->Object_0);
    r
}

/// The payload that sends the plain text `body` to a chat.
pub fn send_message(chat_id: i64, body: &str) -> (r: String)
    ensures
        r@ == json_text(text_message_view(chat_id, body@)),
{
    render(&text_message(chat_id, body))
}

/// A request of the kind `kind` with one text field.
pub fn answer(kind: &str, key: &str, value: &str) -> (r: Json)
    ensures
        r@ == answer_view(kind@, key@, value@),
{
    let r = object(vec![field("@type", text(kind)), field(key, text(value))]);
    assert(r@->Object_0 =~= answer_view(kind@, key@, value@)->Object_0);
    r
}

/// A request of the kind `kind` with one integer field.
pub fn query(kind: &str, key: &str, value: i64) -> (r: Json)
    ensures
        r@ == query_view(kind@, key@, value),
{
    let r = object(vec![field("@type", text(kind)), field(key, Json::Integer(value))]);
    assert(r@->Object_0 =~= query_view(kind@, key@, value)->Object_0);
    r
}

/// The directory for the client's files beside the data directory.
pub fn files_directory(data_dir: &str) -> (r: String)
    ensures
        r@ == files_directory_of(data_dir@),
{
    let stem = strip_trailing(&chars_of(data_dir), &chars_of("/"));
    let mut r = string_of(&stem);
    r.append("_files");
    r
}

/// The payload that silences the client's own log.
pub fn log_verbosity_request() -> (r: String)
    ensures
        r@ == json_text(query_view("setLogVerbosityLevel"@, "new_verbosity_level"@, 0)),
{
    render(&query("setLogVerbosityLevel", "new_verbosity_level", 0))
}

/// The payload that hands the client its parameters.
pub fn client_parameters_request(data_dir: &str, api_id: i32, api_hash: &str) -> (r: String)
    ensures
        r@ == json_text(client_parameters_view(data_dir@, api_id, api_hash@)),
{
    let files = files_directory(data_dir);
    let request = object(
        vec![
            field("@type", text("setTdlibParameters")),
            field("database_directory", text(data_dir)),
            field("files_directory", text(files.as_str())),
            field("database_encryption_key", text("")),
            field("use_test_dc", Json::Flag(false)),
            field("api_id", Json::Integer(api_id as i64)),
            field("api_hash", text(api_hash)),
            field("system_language_code", text("en")),
            field("device_model", text("ReactionBot")),
            field("system_version", text("1.0")),
            field("application_version", text("1.0")),
            field("enable_storage_optimizer", Json::Flag(true)),
            field("ignore_file_names", Json::Flag(false)),
            field("use_file_database", Json::Flag(true)),
            field("use_chat_info_database", Json::Flag(true)),
            field("use_message_database", Json::Flag(true)),
            field("use_secret_chats", Json::Flag(false)),
        ],
    );
    assert(request@->Object_0 =~= client_parameters_view(data_dir@, api_id, api_hash@)->Object_0);
    render(&request)
}

/// Whether `ids` holds `id`.
fn holds(ids: &Vec<i64>, id: i64) -> (r: bool)
    ensures
        r == ids@.contains(id),
{
    let mut i: usize = 0;
    while i < ids.len()
        invariant
            i <= ids.len(),
            forall|k: int| 0 <= k < i ==> ids@[k] != id,
        decreases ids.len() - i,
    {
        if ids[i] == id {
            assert(ids@[i as int] == id);
            return true;
        }
        i += 1;
    }
    false
}

/// `ids` with each identifier kept once, at its first place.
pub fn unique(ids: &Vec<i64>) -> (r: Vec<i64>)
    ensures
        r@ == distinct(ids@),
{
    let mut out: Vec<i64> = Vec::new();
    let mut i: usize = 0;
    assert(ids@.take(0) =~= Seq::<i64>::empty());
    while i < ids.len()
        invariant
            i <= ids.len(),
            out@ == distinct(ids@.take(i as int)),
        decreases ids.len() - i,
    {
        proof {
            let next = ids@.take(i + 1);
            assert(next.drop_last() =~= ids@.take(i as int));
            assert(next.last() == ids@[i as int]);
        }
        if !holds(&out, ids[i]) {
            out.push(ids[i]);
        }
        i += 1;
    }
    assert(ids@.take(i as int) =~= ids@);
    out
}

/// The payloads sent once the client is ready.
pub fn ready_requests(chats: &Vec<i64>) -> (r: Vec<String>)
    ensures
        texts(r@) == ready_requests_view(chats@),
{
    let once = unique(chats);
    let mut out: Vec<String> = Vec::new();
    out.push(render(&query("getChats", "limit", 100)));
    let mut i: usize = 0;
    while i < once.len()
        invariant
            i <= once.len(),
            once@ == distinct(chats@),
            out.len() == i + 1,
            texts(out@) == ready_requests_view(chats@).take(i + 1),
        decreases once.len() - i,
    {
        out.push(render(&query("getChatAvailableReactions", "chat_id", once[i])));
        i += 1;
    }
    assert(ready_requests_view(chats@).take(i + 1) =~= ready_requests_view(chats@));
    out
}

} // verus!
