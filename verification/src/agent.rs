//! The files of an agent: what a new, imported or duplicated agent is
//! made of before it is written to its folder and registered.
use vstd::prelude::*;
use vstd::string::StringSliceAdditionalSpecFns;
use vstd::utf8::{
    valid_utf8, decode_utf8, encode_utf8, encode_utf8_valid_utf8, is_ascii_chars, is_ascii_chars_encode_utf8,
    is_char_boundary, is_char_boundary_iff_not_is_continuation_byte,
};
use crate::compose::{compose_text, default_compose, id_prefix_len, sanitized};
use crate::env::{lemma_render_then_parse_map, map_line_safe, names_distinct, parse_env, parse_env_string, render_env, render_pairs, EnvMap};
use crate::status::opt_view;
use crate::text::push_str;
use crate::token::{is_lower_hex, is_uuid_v4_text, new_uuid_v4};

verus! {

/// What a caller asks for when creating an agent.
pub struct CreateAgentPayload {
    pub name: String,
    pub template: String,
    pub image_override: Option<String>,
    pub env: EnvMap,
}

/// What a caller asks for when importing an agent from a folder.
pub struct ImportAgentPayload {
    pub folder_path: String,
    pub name: Option<String>,
    pub template: Option<String>,
}

/// The error value of `serde_json`, carried through unread.
#[verifier::external_type_specification]
#[verifier::external_body]
pub struct ExJsonError(serde_json::Error);

/// Pretty-printed JSON of an object whose members are the given
/// name/string pairs.
pub uninterp spec fn json_object_pretty(fields: Seq<(Seq<char>, Seq<char>)>) -> Seq<u8>;

/// The views of a list of string pairs.
pub open spec fn pair_views(v: Seq<(String, String)>) -> Seq<(Seq<char>, Seq<char>)> {
    v.map_values(|p: (String, String)| (p.0@, p.1@))
}

/// Pretty-printed JSON object of string members, through
/// `serde_json::to_vec_pretty` on a `serde_json::Value::Object`.
///
/// Trusted: it succeeds (the writer is a `Vec`, which cannot fail, and a
/// `Value` whose keys and values are strings has no failing path in its
/// `Serialize`); the bytes are valid UTF-8 and are named
/// `json_object_pretty` of the member pairs; and when no name occurs
/// twice, reading a member of the text back with `serde_json` gives the
/// string that was written for it. The layout of the text is not stated.
#[verifier::external_body]
fn json_object_bytes(fields: &Vec<(String, String)>) -> (res: Result<Vec<u8>, serde_json::Error>)
    ensures
        res is Ok,
        res matches Ok(b) ==> b@ == json_object_pretty(pair_views(fields@)),
        res matches Ok(b) ==> valid_utf8(b@),
        res matches Ok(b) ==> (names_distinct(pair_views(fields@)) ==> forall|i: int|
            0 <= i < fields@.len() ==> json_string_member(
                decode_utf8(b@),
                #[trigger] pair_views(fields@)[i].0,
            ) == Some(pair_views(fields@)[i].1)),
{
    let map: serde_json::Map<String, serde_json::Value> = fields.iter().map(
        |(k, v)| (k.clone(), serde_json::Value::String(v.clone())),
    ).collect();
    serde_json::to_vec_pretty(&serde_json::Value::Object(map))
}

/// The string member `key` of the JSON object in `text`, if `text` parses
/// as JSON, is an object, and has a string member `key`.
pub uninterp spec fn json_string_member(text: Seq<char>, key: Seq<char>) -> Option<Seq<char>>;

/// Reads a string member of a JSON object, through `serde_json::from_str`
/// into a `serde_json::Value` and `Value::get`.
///
/// Trusted: the result is named `json_string_member` of the text and the
/// key; what JSON parsing gives is not stated.
#[verifier::external_body]
fn json_string_field(text: &str, key: &str) -> (res: Option<String>)
    ensures
        opt_view(res) == json_string_member(text@, key@),
{
    match serde_json::from_str::<serde_json::Value>(text) {
        Ok(v) => match v.get(key) {
            Some(serde_json::Value::String(s)) => Some(s.clone()),
            _ => None,
        },
        Err(_) => None,
    }
}

/// Why an agent could not be imported.
#[derive(Debug, Clone, Copy, PartialEq, Eq, Structural)]
pub enum AgentPlanError {
    /// The folder to import lacks `docker-compose.yml` or `.env`.
    MissingImportFiles,
}

impl AgentPlanError {
    /// The message of the error.
    pub fn message(&self) -> (res: &'static str)
        ensures
            res@ == "folder must contain docker-compose.yml and .env"@,
    {
        match self {
            AgentPlanError::MissingImportFiles => "folder must contain docker-compose.yml and .env",
        }
    }
}

/// The members of an agent's `agent.json`.
pub open spec fn metadata_fields(
    id: Seq<char>,
    name: Seq<char>,
    template: Seq<char>,
    image: Seq<char>,
) -> Seq<(Seq<char>, Seq<char>)> {
    seq![("id"@, id), ("name"@, name), ("template"@, template), ("image"@, image)]
}

/// Whether `agent.json` bytes read back, member by member, as the given
/// id, name, template and image.
pub open spec fn metadata_reads_back(
    bytes: Seq<u8>,
    id: Seq<char>,
    name: Seq<char>,
    template: Seq<char>,
    image: Seq<char>,
) -> bool {
    let text = decode_utf8(bytes);
    &&& valid_utf8(bytes)
    &&& json_string_member(text, "id"@) == Some(id)
    &&& json_string_member(text, "name"@) == Some(name)
    &&& json_string_member(text, "template"@) == Some(template)
    &&& json_string_member(text, "image"@) == Some(image)
}

/// The `agent.json` text of an agent: a JSON object with its id, name,
/// template and image, which read back as written.
pub fn agent_metadata(id: &str, name: &str, template: &str, image: &str) -> (res: Vec<u8>)
    ensures
        res@ == json_object_pretty(metadata_fields(id@, name@, template@, image@)),
        metadata_reads_back(res@, id@, name@, template@, image@),
{
    let mut fields: Vec<(String, String)> = Vec::new();
    fields.push(("id".to_owned(), id.to_owned()));
    fields.push(("name".to_owned(), name.to_owned()));
    fields.push(("template".to_owned(), template.to_owned()));
    fields.push(("image".to_owned(), image.to_owned()));
    let ghost ps = metadata_fields(id@, name@, template@, image@);
    assert(pair_views(fields@) =~= ps);
    proof {
        reveal_strlit("id");
        reveal_strlit("name");
        reveal_strlit("template");
        reveal_strlit("image");
        assert(ps[0].0.len() == 2);
        assert(ps[1].0.len() == 4);
        assert(ps[2].0.len() == 8);
        assert(ps[3].0.len() == 5);
        assert(names_distinct(ps));
    }
    match json_object_bytes(&fields) {
        Ok(b) => {
            proof {
                assert(ps[0].0 == "id"@);
                assert(ps[1].0 == "name"@);
                assert(ps[2].0 == "template"@);
                assert(ps[3].0 == "image"@);
            }
            b
        },
        Err(_) => Vec::new(),
    }
}

/// The image a new agent runs when the caller names none.
pub open spec fn default_image() -> Seq<char> {
    "ghcr.io/openclaw/openclaw:latest"@
}

/// The files of a new agent, before they are written.
#[derive(Debug)]
pub struct AgentFiles {
    pub id: String,
    pub name: String,
    pub template: String,
    pub image: String,
    /// The text of `docker-compose.yml`.
    pub compose: String,
    /// The text of `.env`.
    pub env_file: String,
    /// The bytes of `agent.json`.
    pub metadata: Vec<u8>,
}

/// Whether an agent id can name a container: its byte length fits in
/// memory and its first eight bytes end on a character boundary.
pub open spec fn id_sliceable(id: &str) -> bool {
    &&& id.spec_bytes().len() <= usize::MAX
    &&& is_char_boundary(id.spec_bytes(), id_prefix_len(id))
}

/// The files of a new agent with the given id: the chosen image (the
/// override, or the default image), the generated compose file, the
/// `.env` text of its variables, and its metadata.
pub fn plan_agent_files(id: &str, payload: &CreateAgentPayload) -> (res: AgentFiles)
    requires
        id_sliceable(id),
    ensures
        ({
            let image = match payload.image_override {
                Some(i) => i@,
                None => default_image(),
            };
            &&& res.id@ == id@
            &&& res.name@ == payload.name@
            &&& res.template@ == payload.template@
            &&& res.image@ == image
            &&& res.compose@ == compose_text(
                id@,
                payload.name@,
                image,
                sanitized(decode_utf8(id.spec_bytes().subrange(0, id_prefix_len(id)))),
            )
            &&& res.env_file@ == render_pairs(payload.env.pairs())
            &&& res.metadata@ == json_object_pretty(
                metadata_fields(id@, payload.name@, payload.template@, image),
            )
            &&& metadata_reads_back(res.metadata@, id@, payload.name@, payload.template@, image)
        }),
{
    let image = match &payload.image_override {
        Some(i) => i.clone(),
        None => "ghcr.io/openclaw/openclaw:latest".to_owned(),
    };
    let compose = default_compose(id, payload.name.as_str(), image.as_str());
    let env_file = render_env(&payload.env);
    let metadata = agent_metadata(
        id,
        payload.name.as_str(),
        payload.template.as_str(),
        image.as_str(),
    );
    AgentFiles {
        id: id.to_owned(),
        name: payload.name.clone(),
        template: payload.template.clone(),
        image,
        compose,
        env_file,
        metadata,
    }
}

/// A fresh id is ASCII, 36 bytes long, and may be cut after its eighth
/// byte.
proof fn lemma_uuid_text_sliceable(id: &str)
    requires
        is_uuid_v4_text(id@),
    ensures
        id_sliceable(id),
        is_ascii_chars(id@),
        id.spec_bytes().len() == 36,
{
    assert forall|i: int| 0 <= i < id@.len() implies '\0' <= #[trigger] id@[i] <= '\u{7f}' by {
        if !(i == 8 || i == 13 || i == 18 || i == 23) {
            assert(is_lower_hex(id@[i]));
        }
    }
    is_ascii_chars_encode_utf8(id@);
    encode_utf8_valid_utf8(id@);
    let bytes = id.spec_bytes();
    assert(bytes[8] == id@[8] as u8);
    assert(id@[8] == '-');
    is_char_boundary_iff_not_is_continuation_byte(bytes, 8);
}

/// The first eight bytes of a fresh id decode to its first eight
/// characters.
proof fn lemma_uuid_prefix_bytes(id: &str)
    requires
        is_uuid_v4_text(id@),
    ensures
        decode_utf8(id.spec_bytes().subrange(0, 8)) == id@.subrange(0, 8),
{
    lemma_uuid_text_sliceable(id);
    let bytes = id.spec_bytes();
    let p = id@.subrange(0, 8);
    assert(is_ascii_chars(p));
    is_ascii_chars_encode_utf8(p);
    is_ascii_chars_encode_utf8(id@);
    assert forall|i: int| 0 <= i < 8 implies bytes.subrange(0, 8)[i] == encode_utf8(p)[i] by {
        assert(bytes[i] == id@[i] as u8);
        assert(encode_utf8(p)[i] == p[i] as u8);
    }
    assert(bytes.subrange(0, 8) =~= encode_utf8(p));
    vstd::utf8::encode_utf8_decode_utf8(p);
}

/// The files of a new agent under a fresh random id (see
/// `plan_agent_files`).
pub fn plan_new_agent(payload: &CreateAgentPayload) -> (res: AgentFiles)
    ensures
        ({
            let image = match payload.image_override {
                Some(i) => i@,
                None => default_image(),
            };
            &&& is_uuid_v4_text(res.id@)
            &&& res.name@ == payload.name@
            &&& res.template@ == payload.template@
            &&& res.image@ == image
            &&& res.compose@ == compose_text(
                res.id@,
                payload.name@,
                image,
                sanitized(res.id@.subrange(0, 8)),
            )
            &&& res.env_file@ == render_pairs(payload.env.pairs())
            &&& res.metadata@ == json_object_pretty(
                metadata_fields(res.id@, payload.name@, payload.template@, image),
            )
            &&& metadata_reads_back(res.metadata@, res.id@, payload.name@, payload.template@, image)
        }),
{
    let id = new_uuid_v4();
    let ids = id.as_str();
    proof {
        lemma_uuid_text_sliceable(ids);
        lemma_uuid_prefix_bytes(ids);
    }
    plan_agent_files(ids, payload)
}

/// The name of an imported agent that was given none: `Imported-` and the
/// first eight bytes of its id.
pub open spec fn imported_name(id: &str) -> Seq<char> {
    "Imported-"@ + decode_utf8(id.spec_bytes().subrange(0, 8))
}

/// The template of an imported agent that was given none.
pub open spec fn default_import_template() -> Seq<char> {
    "openclaw-default"@
}

/// What an imported agent is registered as.
#[derive(Debug)]
pub struct ImportedAgent {
    pub id: String,
    pub name: String,
    pub template: String,
    /// The bytes of `agent.json`.
    pub metadata: Vec<u8>,
}

/// What importing a folder registers, given whether the folder holds
/// `docker-compose.yml` and `.env` (both are needed) and the new id: the
/// given name or `Imported-` and the id's first eight bytes, the given
/// template or `openclaw-default`, and metadata with image `imported`.
/// When no name is given, the id's first eight bytes must end on a
/// character boundary (slicing there would panic otherwise).
pub fn plan_import(
    id: &str,
    payload: &ImportAgentPayload,
    compose_exists: bool,
    env_exists: bool,
) -> (res: Result<ImportedAgent, AgentPlanError>)
    requires
        payload.name is None ==> id.spec_bytes().len() >= 8 && is_char_boundary(
            id.spec_bytes(),
            8,
        ),
    ensures
        !(compose_exists && env_exists) ==> res == Err::<ImportedAgent, AgentPlanError>(
            AgentPlanError::MissingImportFiles,
        ),
        compose_exists && env_exists ==> ({
            let name = match payload.name {
                Some(n) => n@,
                None => imported_name(id),
            };
            let template = match payload.template {
                Some(t) => t@,
                None => default_import_template(),
            };
            &&& res is Ok
            &&& res matches Ok(a) && {
                &&& a.id@ == id@
                &&& a.name@ == name
                &&& a.template@ == template
                &&& a.metadata@ == json_object_pretty(
                    metadata_fields(id@, name, template, "imported"@),
                )
                &&& metadata_reads_back(a.metadata@, id@, name, template, "imported"@)
            }
        }),
{
    if !compose_exists || !env_exists {
        return Err(AgentPlanError::MissingImportFiles);
    }
    let name = match &payload.name {
        Some(n) => n.clone(),
        None => {
            let (head, _) = id.split_at(8);
            proof {
                vstd::utf8::encode_utf8_decode_utf8(head@);
            }
            let mut n = String::new();
            push_str(&mut n, "Imported-");
            push_str(&mut n, head);
            n
        },
    };
    let template = match &payload.template {
        Some(t) => t.clone(),
        None => "openclaw-default".to_owned(),
    };
    let metadata = agent_metadata(id, name.as_str(), template.as_str(), "imported");
    Ok(ImportedAgent { id: id.to_owned(), name, template, metadata })
}

/// What importing a folder registers, under a fresh random id (see
/// `plan_import`).
pub fn plan_import_new(
    payload: &ImportAgentPayload,
    compose_exists: bool,
    env_exists: bool,
) -> (res: Result<ImportedAgent, AgentPlanError>)
    ensures
        !(compose_exists && env_exists) ==> res == Err::<ImportedAgent, AgentPlanError>(
            AgentPlanError::MissingImportFiles,
        ),
        compose_exists && env_exists ==> res is Ok,
        compose_exists && env_exists ==> match res {
            Ok(a) => {
                let name = match payload.name {
                    Some(n) => n@,
                    None => "Imported-"@ + a.id@.subrange(0, 8),
                };
                let template = match payload.template {
                    Some(t) => t@,
                    None => default_import_template(),
                };
                &&& is_uuid_v4_text(a.id@)
                &&& a.name@ == name
                &&& a.template@ == template
                &&& a.metadata@ == json_object_pretty(
                    metadata_fields(a.id@, name, template, "imported"@),
                )
                &&& metadata_reads_back(a.metadata@, a.id@, name, template, "imported"@)
            },
            Err(_) => false,
        },
{
    if !compose_exists || !env_exists {
        return Err(AgentPlanError::MissingImportFiles);
    }
    let id = new_uuid_v4();
    let ids = id.as_str();
    proof {
        lemma_uuid_text_sliceable(ids);
        lemma_uuid_prefix_bytes(ids);
    }
    plan_import(ids, payload, compose_exists, env_exists)
}

/// The request that duplicates an agent, given the image read from its
/// metadata: the new name, the same template, that image as override,
/// and the variables read back from its `.env` text.
pub fn duplicate_payload_with_image(
    new_name: String,
    template: String,
    image: Option<String>,
    env_text: &str,
) -> (res: CreateAgentPayload)
    ensures
        res.name@ == new_name@,
        res.template@ == template@,
        opt_view(res.image_override) == opt_view(image),
        res.env@ == parse_env(env_text@),
{
    CreateAgentPayload {
        name: new_name,
        template,
        image_override: image,
        env: parse_env_string(env_text),
    }
}

/// The request that duplicates an agent from its stored files: the new
/// name, the same template, the `image` member of its `agent.json` (if it
/// has one) as override, and the variables of its `.env` text.
pub fn duplicate_payload(
    new_name: String,
    template: String,
    env_text: &str,
    metadata_text: &str,
) -> (res: CreateAgentPayload)
    ensures
        res.name@ == new_name@,
        res.template@ == template@,
        opt_view(res.image_override) == json_string_member(metadata_text@, "image"@),
        res.env@ == parse_env(env_text@),
{
    let image = json_string_field(metadata_text, "image");
    duplicate_payload_with_image(new_name, template, image, env_text)
}

/// Duplicating an agent from the files written for it copies its image,
/// and copies its variables whenever they can be written line by line:
/// the `agent.json` written by `agent_metadata` reads back its image, and
/// the `.env` text written by `render_env` reads back its variables.
pub proof fn lemma_duplicate_copies_agent(
    metadata: Seq<u8>,
    id: Seq<char>,
    name: Seq<char>,
    template: Seq<char>,
    image: Seq<char>,
    env: &EnvMap,
    copy: &CreateAgentPayload,
)
    requires
        metadata_reads_back(metadata, id, name, template, image),
        opt_view(copy.image_override) == json_string_member(decode_utf8(metadata), "image"@),
        copy.env@ == parse_env(render_pairs(env.pairs())),
        names_distinct(env.pairs()),
        map_line_safe(env@),
    ensures
        opt_view(copy.image_override) == Some(image),
        copy.env@ == env@,
{
    lemma_render_then_parse_map(env);
}

/// The folder of an agent on the supervisor server.
pub open spec fn server_workdir_of(id: Seq<char>) -> Seq<char> {
    "/data/agents/"@ + id
}

/// The folder of an agent on the supervisor server.
pub fn server_agent_workdir(id: &str) -> (res: String)
    ensures
        res@ == server_workdir_of(id@),
{
    let mut res = String::new();
    push_str(&mut res, "/data/agents/");
    push_str(&mut res, id);
    res
}

/// The compose file path inside an agent's folder.
pub fn compose_file_in(workdir: &str) -> (res: String)
    ensures
        res@ == workdir@ + "/docker-compose.yml"@,
{
    let mut res = String::new();
    push_str(&mut res, workdir);
    push_str(&mut res, "/docker-compose.yml");
    res
}

/// The compose file the supervisor server writes for a new agent.
pub open spec fn server_compose_text(id: Seq<char>, name: Seq<char>) -> Seq<char> {
    "services:\n  openclaw-agent:\n    image: ghcr.io/openclaw/openclaw:latest\n    labels:\n      openshell.agent_id: \""@
        + id + "\"\n      openshell.agent_name: \""@ + name + "\"\n"@
}

/// The compose file the supervisor server writes for a new agent: the
/// default image and labels carrying the agent's id and name.
pub fn server_compose(id: &str, name: &str) -> (res: String)
    ensures
        res@ == server_compose_text(id@, name@),
{
    let mut res = String::new();
    push_str(
        &mut res,
        "services:\n  openclaw-agent:\n    image: ghcr.io/openclaw/openclaw:latest\n    labels:\n      openshell.agent_id: \"",
    );
    push_str(&mut res, id);
    push_str(&mut res, "\"\n      openshell.agent_name: \"");
    push_str(&mut res, name);
    push_str(&mut res, "\"\n");
    res
}

} // verus!
