//! The stored documents of the application: the configuration, one record
//! per identity with named sections, and the pool list. The functions here
//! take the text of a file as the host read it (`None` for a file that does
//! not exist) and return what the caller gets and what the host writes.

use vstd::prelude::*;
use vstd::string::StringExecFns;
use crate::json::{array_items, object_members, parsed, pretty_text};
use crate::json::{copy_of, empty_array, empty_object, error_text, is_array, is_object, member};
use crate::json::{parse, set_member, to_pretty};
use crate::text::{is_blank, opt_view, text_is_blank};

verus! {

/// A document that is ready to be stored.
#[derive(Debug)]
pub struct Saved {
    /// The document.
    pub document: serde_json::Value,
    /// Its text, to be written to the file.
    pub text: String,
    /// What the caller is told.
    pub message: String,
}

/// What the pool list reads as.
#[derive(Debug)]
pub struct PoolRead {
    /// The list.
    pub data: serde_json::Value,
    /// The text to seed the file with, where the file did not exist.
    pub seed: Option<String>,
}

/// What the initialisation of a record comes to.
#[derive(Debug)]
pub enum RecordInit {
    /// The identity has a record: nothing is written.
    Exists(String),
    /// The identity gets the empty record.
    Created(Saved),
}

/// The sections of a record with the given file text: those of the object
/// that the text denotes, and none for a missing file, for a text that is no
/// JSON, and for a value that is no object.
pub open spec fn record_members(content: Option<Seq<char>>) -> Map<Seq<char>, serde_json::Value> {
    match content {
        None => Map::empty(),
        Some(text) => match parsed(text) {
            Ok(v) => match object_members(v) {
                Some(m) => m,
                None => Map::empty(),
            },
            Err(_) => Map::empty(),
        },
    }
}

/// The name of the section of character data.
pub open spec fn character_section() -> Seq<char> {
    "character"@
}

/// The name of the section of weapon data.
pub open spec fn weapon_section() -> Seq<char> {
    "weapon"@
}

/// The message for a blank identity.
pub open spec fn blank_uid_message() -> Seq<char> {
    "UID cannot be empty"@
}

/// The text of the pool list that a new installation starts with.
pub open spec fn default_pool_text() -> Seq<char> {
    POOL_SEED@
}

/// The pool list that a new installation starts with.
pub const POOL_SEED: &'static str =
    r#"[{"pool_gacha_type":"char","pool_id":"special_1_0_1","pool_name":"熔火灼痕","pool_type":"special","up6_id":"chr_0016_laevat"},{"pool_gacha_type":"char","pool_id":"special_1_0_3","pool_name":"轻飘飘的信使","pool_type":"special","up6_id":"chr_0013_aglina"}]"#;

/// Is the identity unusable? One that holds nothing but white space is.
pub fn uid_is_blank(uid: &str) -> (r: bool)
    ensures
        r == is_blank(uid@),
{
    text_is_blank(uid)
}

/// Refuses an unusable identity with its message, and no other.
pub fn check_uid(uid: &str) -> (r: Result<(), String>)
    ensures
        r is Err <==> is_blank(uid@),
        r is Err ==> r->Err_0@ == blank_uid_message(),
{
    if uid_is_blank(uid) {
        Err(String::from_str("UID cannot be empty"))
    } else {
        Ok(())
    }
}

/// The record of an identity from its file text. The result is always an
/// object; it is the stored value itself where that is an object.
pub fn load_full_record(content: Option<&str>) -> (doc: serde_json::Value)
    ensures
        object_members(doc) == Some(record_members(opt_view(content))),
        content.is_some() && parsed(content.unwrap()@) is Ok && object_members(
            parsed(content.unwrap()@)->Ok_0,
        ).is_some() ==> doc == parsed(content.unwrap()@)->Ok_0,
{
    match content {
        None => empty_object(),
        Some(text) => match parse(text) {
            Ok(v) => if is_object(&v) {
                v
            } else {
                empty_object()
            },
            Err(_) => empty_object(),
        },
    }
}

/// One section of a record: the member under `name`, or the empty object
/// where the record has none.
pub fn read_section(doc: &serde_json::Value, name: &str) -> (data: serde_json::Value)
    ensures
        match object_members(*doc) {
            Some(m) => if m.dom().contains(name@) {
                data == m[name@]
            } else {
                object_members(data) == Some(Map::<Seq<char>, serde_json::Value>::empty())
            },
            None => object_members(data) == Some(Map::<Seq<char>, serde_json::Value>::empty()),
        },
{
    match member(doc, name) {
        Some(m) => copy_of(m),
        None => empty_object(),
    }
}

/// The record with the section `name` set to `data`: the other sections
/// stay as they are.
pub fn write_section(doc: serde_json::Value, name: &str, data: serde_json::Value) -> (r:
    serde_json::Value)
    requires
        object_members(doc).is_some(),
    ensures
        object_members(r) == Some(object_members(doc).unwrap().insert(name@, data)),
{
    let mut r = doc;
    set_member(&mut r, name, data);
    r
}

/// The stored form of a document from what the serializer made of it: its
/// text together with the document and the message, or the serializer's
/// complaint.
pub fn stored_form(document: serde_json::Value, rendered: Result<String, String>, message: String)
    -> (r: Result<Saved, String>)
    ensures
        match rendered {
            Ok(text) => r is Ok && r->Ok_0.document == document && r->Ok_0.text == text
                && r->Ok_0.message == message,
            Err(e) => r is Err && r->Err_0 == e,
        },
{
    match rendered {
        Ok(text) => Ok(Saved { document, text, message }),
        Err(e) => Err(e),
    }
}

/// Is `r` what comes of storing the document `d` with the message
/// `message`? Where the serializer writes `d`, that is the document with its
/// indented text and the message; where it gives an error, that is the
/// error's message.
pub open spec fn stored_as(r: Result<Saved, String>, d: serde_json::Value, message: Seq<char>)
    -> bool {
    match pretty_text(d) {
        Ok(text) => r is Ok && r->Ok_0.document == d && r->Ok_0.text@ == text && r->Ok_0.message@
            == message,
        Err(e) => r is Err && r->Err_0@ == e,
    }
}

/// Puts a document into its stored form. It succeeds exactly where the
/// serializer writes the document: the result then holds the document, its
/// indented text and the message given. Where the serializer gives an error,
/// its message is returned.
pub fn store(document: serde_json::Value, message: String) -> (r: Result<Saved, String>)
    ensures
        r is Ok <==> pretty_text(document) is Ok,
        stored_as(r, document, message@),
        r is Ok ==> r->Ok_0.message == message,
{
    let rendered: Result<String, String> = match to_pretty(&document) {
        Ok(text) => Ok(text),
        Err(e) => Err(error_text(&e)),
    };
    stored_form(document, rendered, message)
}

/// The section `name` of the record with the given file text, for the
/// identity `uid`. A blank identity is refused; otherwise the section is
/// read, and is the empty object where the record has none.
pub fn read_records(uid: &str, content: Option<&str>, name: &str) -> (r: Result<
    serde_json::Value,
    String,
>)
    ensures
        is_blank(uid@) <==> r is Err,
        match r {
            Ok(data) => {
                let m = record_members(opt_view(content));
                if m.dom().contains(name@) {
                    data == m[name@]
                } else {
                    object_members(data) == Some(Map::<Seq<char>, serde_json::Value>::empty())
                }
            },
            Err(e) => e@ == blank_uid_message(),
        },
{
    match check_uid(uid) {
        Err(e) => {
            return Err(e);
        },
        Ok(_) => {},
    }
    let full: serde_json::Value = load_full_record(content);
    Ok(read_section(&full, name))
}

/// The character data of the identity `uid`.
pub fn read_char_records(uid: &str, content: Option<&str>) -> (r: Result<
    serde_json::Value,
    String,
>)
    ensures
        is_blank(uid@) <==> r is Err,
        match r {
            Ok(data) => {
                let m = record_members(opt_view(content));
                if m.dom().contains(character_section()) {
                    data == m[character_section()]
                } else {
                    object_members(data) == Some(Map::<Seq<char>, serde_json::Value>::empty())
                }
            },
            Err(e) => e@ == blank_uid_message(),
        },
{
    read_records(uid, content, "character")
}

/// The weapon data of the identity `uid`.
pub fn read_weapon_records(uid: &str, content: Option<&str>) -> (r: Result<
    serde_json::Value,
    String,
>)
    ensures
        is_blank(uid@) <==> r is Err,
        match r {
            Ok(data) => {
                let m = record_members(opt_view(content));
                if m.dom().contains(weapon_section()) {
                    data == m[weapon_section()]
                } else {
                    object_members(data) == Some(Map::<Seq<char>, serde_json::Value>::empty())
                }
            },
            Err(e) => e@ == blank_uid_message(),
        },
{
    read_records(uid, content, "weapon")
}

/// The record with the given file text after `data` became its section
/// `name`: every other section is kept.
pub fn merged_record(content: Option<&str>, name: &str, data: serde_json::Value) -> (doc:
    serde_json::Value)
    ensures
        object_members(doc) == Some(record_members(opt_view(content)).insert(name@, data)),
{
    let full: serde_json::Value = load_full_record(content);
    write_section(full, name, data)
}

/// Stores `data` as the character data of the identity `uid`, merged into
/// the record with the given file text. A blank identity is refused with its
/// message; otherwise the outcome is that of storing the merged record: it
/// succeeds exactly where the serializer writes that record.
pub fn save_char_records(uid: &str, content: Option<&str>, data: serde_json::Value) -> (r: Result<
    Saved,
    String,
>)
    ensures
        is_blank(uid@) ==> r is Err && r->Err_0@ == blank_uid_message(),
        !is_blank(uid@) ==> exists|d: serde_json::Value|
            object_members(d) == Some(
                record_members(opt_view(content)).insert(character_section(), data),
            ) && #[trigger] stored_as(r, d, "UID "@ + uid@ + " data saved successfully"@),
        r is Ok ==> !is_blank(uid@) && object_members(r->Ok_0.document) == Some(
            record_members(opt_view(content)).insert(character_section(), data),
        ) && pretty_text(r->Ok_0.document) == Ok::<Seq<char>, Seq<char>>(r->Ok_0.text@)
            && r->Ok_0.message@ == "UID "@ + uid@ + " data saved successfully"@,
{
    match check_uid(uid) {
        Err(e) => {
            return Err(e);
        },
        Ok(_) => {},
    }
    let doc: serde_json::Value = merged_record(content, "character", data);
    let mut message: String = String::from_str("UID ");
    message.append(uid);
    message.append(" data saved successfully");
    let ghost merged = doc;
    let r = store(doc, message);
    assert(stored_as(r, merged, "UID "@ + uid@ + " data saved successfully"@));
    r
}

/// Stores `data` as the weapon data of the identity `uid`, merged into the
/// record with the given file text. A blank identity is refused with its
/// message; otherwise the outcome is that of storing the merged record: it
/// succeeds exactly where the serializer writes that record.
pub fn save_weapon_records(uid: &str, content: Option<&str>, data: serde_json::Value) -> (r:
    Result<Saved, String>)
    ensures
        is_blank(uid@) ==> r is Err && r->Err_0@ == blank_uid_message(),
        !is_blank(uid@) ==> exists|d: serde_json::Value|
            object_members(d) == Some(
                record_members(opt_view(content)).insert(weapon_section(), data),
            ) && #[trigger] stored_as(r, d, "UID "@ + uid@ + " weapon data saved"@),
        r is Ok ==> !is_blank(uid@) && object_members(r->Ok_0.document) == Some(
            record_members(opt_view(content)).insert(weapon_section(), data),
        ) && pretty_text(r->Ok_0.document) == Ok::<Seq<char>, Seq<char>>(r->Ok_0.text@)
            && r->Ok_0.message@ == "UID "@ + uid@ + " weapon data saved"@,
{
    match check_uid(uid) {
        Err(e) => {
            return Err(e);
        },
        Ok(_) => {},
    }
    let doc: serde_json::Value = merged_record(content, "weapon", data);
    let mut message: String = String::from_str("UID ");
    message.append(uid);
    message.append(" weapon data saved");
    let ghost merged = doc;
    let r = store(doc, message);
    assert(stored_as(r, merged, "UID "@ + uid@ + " weapon data saved"@));
    r
}

/// Is `d` the record that a new identity starts with? It is an object with
/// the two sections and no other member, each section an empty object.
pub open spec fn is_initial_record(d: serde_json::Value) -> bool {
    &&& object_members(d).is_some()
    &&& object_members(d).unwrap().dom() =~= set![character_section(), weapon_section()]
    &&& object_members(object_members(d).unwrap()[character_section()]) == Some(
        Map::<Seq<char>, serde_json::Value>::empty(),
    )
    &&& object_members(object_members(d).unwrap()[weapon_section()]) == Some(
        Map::<Seq<char>, serde_json::Value>::empty(),
    )
}

/// Is `r` what comes of creating the record `d`? Where the serializer writes
/// `d`, that is the created record with its indented text and the message of
/// success; where it gives an error, that is the error's message.
pub open spec fn created_as(r: Result<RecordInit, String>, d: serde_json::Value) -> bool {
    match pretty_text(d) {
        Ok(text) => r is Ok && r->Ok_0 is Created && r->Ok_0->Created_0.document == d
            && r->Ok_0->Created_0.text@ == text && r->Ok_0->Created_0.message@
            == "Record initialized"@,
        Err(e) => r is Err && r->Err_0@ == e,
    }
}

/// The record that a new identity starts with: both sections, each empty.
pub fn initial_record() -> (doc: serde_json::Value)
    ensures
        is_initial_record(doc),
{
    proof {
        lemma_sections_differ();
    }
    let doc: serde_json::Value = write_section(empty_object(), "character", empty_object());
    write_section(doc, "weapon", empty_object())
}

/// Gives the identity `uid` its record. A blank identity is refused; a
/// record that exists is left alone; otherwise the empty record is stored,
/// which succeeds exactly where the serializer writes it.
pub fn init_user_record(uid: &str, exists: bool) -> (r: Result<RecordInit, String>)
    ensures
        is_blank(uid@) ==> r is Err && r->Err_0@ == blank_uid_message(),
        !is_blank(uid@) && exists ==> r is Ok && r->Ok_0 is Exists && r->Ok_0->Exists_0@
            == "Record already exists"@,
        !is_blank(uid@) && !exists ==> exists|d: serde_json::Value|
            is_initial_record(d) && #[trigger] created_as(r, d),
        r is Ok && r->Ok_0 is Exists ==> !is_blank(uid@) && exists,
        r is Ok && r->Ok_0 is Created ==> {
            &&& !is_blank(uid@) && !exists
            &&& is_initial_record(r->Ok_0->Created_0.document)
            &&& pretty_text(r->Ok_0->Created_0.document) == Ok::<Seq<char>, Seq<char>>(
                r->Ok_0->Created_0.text@,
            )
            &&& r->Ok_0->Created_0.message@ == "Record initialized"@
        },
{
    match check_uid(uid) {
        Err(e) => {
            return Err(e);
        },
        Ok(_) => {},
    }
    if exists {
        return Ok(RecordInit::Exists(String::from_str("Record already exists")));
    }
    let doc: serde_json::Value = initial_record();
    let ghost fresh = doc;
    let r = match store(doc, String::from_str("Record initialized")) {
        Ok(s) => Ok(RecordInit::Created(s)),
        Err(e) => Err(e),
    };
    assert(created_as(r, fresh));
    r
}

/// The configuration from its file text: the empty object for a missing
/// file, the stored value for a text that is JSON, and the parser's message
/// for one that is not.
pub fn read_config(content: Option<&str>) -> (r: Result<serde_json::Value, String>)
    ensures
        match opt_view(content) {
            None => r is Ok && object_members(r->Ok_0) == Some(
                Map::<Seq<char>, serde_json::Value>::empty(),
            ),
            Some(text) => match parsed(text) {
                Ok(v) => r == Ok::<serde_json::Value, String>(v),
                Err(e) => r is Err && r->Err_0@ == e,
            },
        },
{
    match content {
        None => Ok(empty_object()),
        Some(text) => match parse(text) {
            Ok(v) => Ok(v),
            Err(e) => Err(error_text(&e)),
        },
    }
}

/// Puts the configuration into its stored form. It succeeds exactly where
/// the serializer writes the configuration: the result then holds it, its
/// indented text and the message of success.
pub fn save_config(data: serde_json::Value) -> (r: Result<Saved, String>)
    ensures
        r is Ok <==> pretty_text(data) is Ok,
        stored_as(r, data, "Configuration saved successfully"@),
{
    store(data, String::from_str("Configuration saved successfully"))
}

/// The pool list that stands for a stored value: the value where it is an
/// array, the empty array otherwise.
pub fn pool_or_empty(stored: Option<serde_json::Value>) -> (data: serde_json::Value)
    ensures
        array_items(data).is_some(),
        match stored {
            Some(v) => if array_items(v).is_some() {
                data == v
            } else {
                array_items(data) == Some(Seq::<serde_json::Value>::empty())
            },
            None => array_items(data) == Some(Seq::<serde_json::Value>::empty()),
        },
{
    match stored {
        Some(v) => if is_array(&v) {
            v
        } else {
            empty_array()
        },
        None => empty_array(),
    }
}

/// Is `d` the pool list for what a text was read as? It is the value read
/// where that is an array, and the empty array otherwise.
pub open spec fn pool_of(stored: Result<serde_json::Value, Seq<char>>, d: serde_json::Value)
    -> bool {
    if stored is Ok && array_items(stored->Ok_0).is_some() {
        d == stored->Ok_0
    } else {
        array_items(d) == Some(Seq::<serde_json::Value>::empty())
    }
}

/// Is `r` what comes of seeding the pool file with the list `d`? Where the
/// serializer writes `d`, that is the list together with its indented text
/// as the seed; where it gives an error, that is the error's message.
pub open spec fn seeded_as(r: Result<PoolRead, String>, d: serde_json::Value) -> bool {
    match pretty_text(d) {
        Ok(text) => r is Ok && r->Ok_0.data == d && r->Ok_0.seed.is_some()
            && r->Ok_0.seed.unwrap()@ == text,
        Err(e) => r is Err && r->Err_0@ == e,
    }
}

/// The pool list from its file text. A file that exists reads as the array
/// it holds, or as the empty array where it holds none, and nothing is
/// written. A missing file reads as the list that the seed text denotes,
/// returned together with its indented text to write; that fails only where
/// the serializer gives an error for that list.
pub fn read_pool_info(content: Option<&str>) -> (r: Result<PoolRead, String>)
    ensures
        match opt_view(content) {
            Some(text) => r is Ok && r->Ok_0.seed.is_none() && pool_of(parsed(text), r->Ok_0.data),
            None => exists|d: serde_json::Value|
                pool_of(parsed(default_pool_text()), d) && #[trigger] seeded_as(r, d),
        },
        r is Ok ==> array_items(r->Ok_0.data).is_some(),
        r is Ok ==> (r->Ok_0.seed.is_some() <==> content.is_none()),
        r is Ok && content.is_none() ==> pool_of(parsed(default_pool_text()), r->Ok_0.data)
            && pretty_text(r->Ok_0.data) == Ok::<Seq<char>, Seq<char>>(r->Ok_0.seed.unwrap()@),
{
    match content {
        Some(text) => {
            let stored: Option<serde_json::Value> = match parse(text) {
                Ok(v) => Some(v),
                Err(_) => None,
            };
            Ok(PoolRead { data: pool_or_empty(stored), seed: None })
        },
        None => {
            let stored: Option<serde_json::Value> = match parse(POOL_SEED) {
                Ok(v) => Some(v),
                Err(_) => None,
            };
            let data: serde_json::Value = pool_or_empty(stored);
            let ghost list = data;
            let r = match to_pretty(&data) {
                Ok(text) => Ok(PoolRead { data, seed: Some(text) }),
                Err(e) => Err(error_text(&e)),
            };
            assert(seeded_as(r, list));
            r
        },
    }
}

/// The message for a pool list that is no array.
pub open spec fn pool_shape_message() -> Seq<char> {
    "poolInfo must be a JSON array"@
}

/// Puts the pool list into its stored form. A value that is no array is
/// refused with its message; an array is stored, which succeeds exactly
/// where the serializer writes it.
pub fn save_pool_info(data: serde_json::Value) -> (r: Result<Saved, String>)
    ensures
        array_items(data).is_none() ==> r is Err && r->Err_0@ == pool_shape_message(),
        array_items(data).is_some() ==> stored_as(r, data, "poolInfo saved"@),
        r is Ok <==> array_items(data).is_some() && pretty_text(data) is Ok,
{
    if !is_array(&data) {
        return Err(String::from_str("poolInfo must be a JSON array"));
    }
    store(data, String::from_str("poolInfo saved"))
}

/// The two section names are different texts.
pub proof fn lemma_sections_differ()
    ensures
        character_section() != weapon_section(),
{
    reveal_strlit("character");
    reveal_strlit("weapon");
    assert(character_section().len() == 9);
    assert(weapon_section().len() == 6);
}

/// Writing one section and then the other leaves both in the record, each
/// as it was written, and every other section as it was before.
pub proof fn law_section_writes_merge(
    content: Option<Seq<char>>,
    characters: serde_json::Value,
    weapons: serde_json::Value,
)
    ensures
        ({
            let before = record_members(content);
            let after = before.insert(character_section(), characters).insert(
                weapon_section(),
                weapons,
            );
            &&& after.dom().contains(character_section())
            &&& after[character_section()] == characters
            &&& after.dom().contains(weapon_section())
            &&& after[weapon_section()] == weapons
            &&& forall|k: Seq<char>|
                k != character_section() && k != weapon_section() ==> (after.dom().contains(k)
                    <==> before.dom().contains(k)) && (before.dom().contains(k) ==> after[k]
                    == before[k])
        }),
{
    lemma_sections_differ();
}

} // verus!
