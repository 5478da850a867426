use vstd::prelude::*;
use vstd::utf8::encode_utf8;
use crate::document::{
    document_parsed, document_rendered, empty_document, field_of, items_of, list_value, lookup,
    parse_document, render_document, set_field, text_of, text_value, value_fields, value_items,
    value_text,
};
use crate::error::SyncifyError;
use crate::identity::{hex_lower, secret_key_parsed, SecretKey};

verus! {

/// Longest display label, in bytes of UTF-8.
pub const USER_DATA_MAX: usize = 64;

/// A byte that is no control character.
pub open spec fn printable_byte(b: u8) -> bool {
    b >= 0x20 && b != 0x7f
}

/// A display label: at most 64 bytes of UTF-8, none of them a control character.
pub open spec fn label_ok(text: Seq<char>) -> bool {
    let bytes = encode_utf8(text);
    &&& bytes.len() <= USER_DATA_MAX
    &&& forall|i: int| 0 <= i < bytes.len() ==> printable_byte(#[trigger] bytes[i])
}

/// The label that the operator chose for this node; it is published in discovery.
#[derive(Debug)]
pub struct UserData {
    text: String,
}

impl View for UserData {
    type V = Seq<char>;

    closed spec fn view(&self) -> Seq<char> {
        self.text@
    }
}

impl Clone for UserData {
    fn clone(&self) -> (copy: UserData)
        ensures
            copy@ == self@,
    {
        proof {
            use_type_invariant(self);
        }
        UserData { text: self.text.clone() }
    }
}

impl UserData {
    #[verifier::type_invariant]
    spec fn printable_and_short(self) -> bool {
        label_ok(self.text@)
    }

    /// Takes a label if it is short enough and printable.
    pub fn new(text: &str) -> (r: Option<UserData>)
        ensures
            match r {
                Some(label) => label@ == text@ && label_ok(text@),
                None => !label_ok(text@),
            },
    {
        if text.len() > USER_DATA_MAX {
            return None;
        }
        let bytes = text.as_bytes();
        let mut i: usize = 0;
        while i < bytes.len()
            invariant
                bytes@ == encode_utf8(text@),
                i <= bytes@.len(),
                forall|j: int| 0 <= j < i ==> printable_byte(#[trigger] bytes@[j]),
            decreases bytes@.len() - i,
        {
            if bytes[i] < 0x20 || bytes[i] == 0x7f {
                return None;
            }
            i += 1;
        }
        Some(UserData { text: text.to_owned() })
    }

    /// Whether two labels hold the same text.
    pub fn same(&self, other: &UserData) -> (r: bool)
        ensures
            r == (self@ == other@),
    {
        self.text == other.text
    }

    /// The label's text.
    pub fn as_str(&self) -> (text: &str)
        ensures
            text@ == self@,
            label_ok(self@),
    {
        proof {
            use_type_invariant(self);
        }
        self.text.as_str()
    }
}

/// Name of the configuration file inside the configuration directory.
pub const CONFIG_FILENAME: &'static str = "config.toml";

/// Directory of the configuration in a build for debugging.
pub const DEVELOPMENT_DIR: &'static str = "./target/debug";

/// The directory that holds the configuration: the override where one is set, else the
/// development directory in a build for debugging, else the user's own configuration
/// directory for this application, if the host names one.
pub fn config_dir(
    override_dir: Option<String>,
    debug_build: bool,
    user_dir: Option<String>,
) -> (dir: Option<String>)
    ensures
        match override_dir {
            Some(chosen) => dir == Some(chosen),
            None => if debug_build {
                dir is Some && dir.unwrap()@ == DEVELOPMENT_DIR@
            } else {
                dir == user_dir
            },
        },
        override_dir is Some || debug_build || user_dir is Some <==> dir is Some,
{
    match override_dir {
        Some(chosen) => Some(chosen),
        None => if debug_build {
            Some(DEVELOPMENT_DIR.to_owned())
        } else {
            user_dir
        },
    }
}

/// A local directory that the user designated for synchronisation.
#[derive(Clone, Debug)]
pub struct Share {
    pub name: String,
    pub path: String,
}

/// What a share is: its label and its path.
pub struct ShareModel {
    pub name: Seq<char>,
    pub path: Seq<char>,
}

impl View for Share {
    type V = ShareModel;

    open spec fn view(&self) -> ShareModel {
        ShareModel { name: self.name@, path: self.path@ }
    }
}

/// The shares of a list, each as its label and path.
pub open spec fn shares_view(shares: Seq<Share>) -> Seq<ShareModel> {
    Seq::new(shares.len(), |i: int| shares[i]@)
}

/// Every share has a label, and no label occurs twice.
pub open spec fn shares_ok(shares: Seq<ShareModel>) -> bool {
    &&& forall|i: int| 0 <= i < shares.len() ==> (#[trigger] shares[i]).name.len() > 0
    &&& forall|i: int, j: int|
        0 <= i < j < shares.len() ==> (#[trigger] shares[i]).name != (#[trigger] shares[j]).name
}

/// What a configuration document says.
pub struct ConfigModel {
    pub secret_key: Seq<u8>,
    pub user_data: Seq<char>,
    pub shares: Seq<ShareModel>,
}

/// The node's persistent state: its identity, its label and its shares.
#[derive(Clone)]
pub struct SyncifyConfig {
    pub secret_key: SecretKey,
    pub user_data: UserData,
    pub shares: Vec<Share>,
}

impl View for SyncifyConfig {
    type V = ConfigModel;

    open spec fn view(&self) -> ConfigModel {
        ConfigModel {
            secret_key: self.secret_key@,
            user_data: self.user_data@,
            shares: shares_view(self.shares@),
        }
    }
}

/// The share that a table of a document's `shares` array describes: its `name` and its
/// `path`, both strings.
pub open spec fn share_read(v: toml::Value) -> Option<ShareModel> {
    match value_fields(v) {
        Some(fields) => match (lookup(fields, "name"@), lookup(fields, "path"@)) {
            (Some(name), Some(path)) => match (value_text(name), value_text(path)) {
                (Some(name), Some(path)) => Some(ShareModel { name, path }),
                _ => None,
            },
            _ => None,
        },
        None => None,
    }
}

/// The shares that a list of tables describes.
pub open spec fn items_read(items: Seq<toml::Value>) -> Seq<ShareModel> {
    Seq::new(items.len(), |i: int| share_read(items[i]).unwrap())
}

/// The shares of a document, from its `shares` entry: none where the entry is absent, and
/// otherwise an array of shares whose labels are present and distinct.
pub open spec fn shares_read(entry: Option<toml::Value>) -> Option<Seq<ShareModel>> {
    match entry {
        None => Some(Seq::empty()),
        Some(v) => match value_items(v) {
            Some(items) => if (forall|i: int|
                0 <= i < items.len() ==> (#[trigger] share_read(items[i])) is Some) && shares_ok(
                items_read(items),
            ) {
                Some(items_read(items))
            } else {
                None
            },
            None => None,
        },
    }
}

/// What a parsed document says, if it is a configuration: a table whose `secret_key` is
/// the printable form of a key, whose `user_data` is a label, and whose `shares`, if
/// there are any, are well formed. Other entries are not looked at.
pub open spec fn read_document(doc: toml::Value) -> Option<ConfigModel> {
    match value_fields(doc) {
        Some(fields) => match (lookup(fields, "secret_key"@), lookup(fields, "user_data"@)) {
            (Some(key), Some(label)) => match (value_text(key), value_text(label)) {
                (Some(key), Some(label)) => match (
                    secret_key_parsed(key),
                    shares_read(lookup(fields, "shares"@)),
                ) {
                    (Some(secret_key), Some(shares)) => if label_ok(label) {
                        Some(ConfigModel { secret_key, user_data: label, shares })
                    } else {
                        None
                    },
                    _ => None,
                },
                _ => None,
            },
            _ => None,
        },
        None => None,
    }
}

/// Reads one share from an item of the `shares` array.
fn read_share(v: &toml::Value) -> (r: Option<Share>)
    ensures
        match r {
            Some(share) => share_read(*v) == Some(share@),
            None => share_read(*v) is None,
        },
{
    let name = match field_of(v, "name") {
        Some(item) => text_of(&item),
        None => None,
    };
    let path = match field_of(v, "path") {
        Some(item) => text_of(&item),
        None => None,
    };
    match (name, path) {
        (Some(name), Some(path)) => Some(Share { name, path }),
        _ => None,
    }
}

/// Whether a label occurs among the first `upto` shares.
fn name_among(shares: &Vec<Share>, upto: usize, name: &String) -> (r: bool)
    requires
        upto <= shares@.len(),
    ensures
        r == exists|j: int| 0 <= j < upto && (#[trigger] shares@[j]).name@ == name@,
{
    let mut j: usize = 0;
    while j < upto
        invariant
            j <= upto <= shares@.len(),
            forall|k: int| 0 <= k < j ==> (#[trigger] shares@[k]).name@ != name@,
        decreases upto - j,
    {
        if shares[j].name == *name {
            return true;
        }
        j += 1;
    }
    false
}

/// Whether a list of shares is well formed: every share has a label, and no label occurs
/// twice.
pub fn shares_valid(shares: &Vec<Share>) -> (r: bool)
    ensures
        r == shares_ok(shares_view(shares@)),
{
    let ghost all = shares_view(shares@);
    let mut i: usize = 0;
    while i < shares.len()
        invariant
            i <= shares@.len(),
            all == shares_view(shares@),
            forall|k: int| 0 <= k < i ==> (#[trigger] shares@[k]).name@.len() > 0,
            forall|a: int, b: int|
                0 <= a < b < i ==> (#[trigger] shares@[a]).name@ != (#[trigger] shares@[b]).name@,
        decreases shares@.len() - i,
    {
        if shares[i].name.as_str().is_empty() {
            assert(all[i as int].name.len() == 0);
            return false;
        }
        if name_among(shares, i, &shares[i].name) {
            let ghost j = choose|j: int|
                0 <= j < i && (#[trigger] shares@[j]).name@ == shares@[i as int].name@;
            assert(all[j].name == all[i as int].name);
            return false;
        }
        i += 1;
    }
    proof {
        assert forall|k: int| 0 <= k < all.len() implies (#[trigger] all[k]).name.len() > 0 by {
            assert(shares@[k].name@.len() > 0);
        }
        assert forall|a: int, b: int| 0 <= a < b < all.len() implies (#[trigger] all[a]).name != (
        #[trigger] all[b]).name by {
            assert(shares@[a].name@ != shares@[b].name@);
        }
    }
    true
}

/// Reads the shares of a document from its `shares` entry.
fn read_shares(entry: Option<toml::Value>) -> (r: Option<Vec<Share>>)
    ensures
        match r {
            Some(shares) => shares_read(entry) == Some(shares_view(shares@)),
            None => shares_read(entry) is None,
        },
{
    let v = match entry {
        Some(v) => v,
        None => {
            let none: Vec<Share> = Vec::new();
            assert(shares_view(none@) =~= Seq::<ShareModel>::empty());
            return Some(none);
        },
    };
    let items = match items_of(&v) {
        Some(items) => items,
        None => {
            return None;
        },
    };
    let ghost all = items_read(items@);
    let mut out: Vec<Share> = Vec::new();
    let mut i: usize = 0;
    while i < items.len()
        invariant
            i <= items@.len(),
            out@.len() == i,
            entry == Some(v),
            value_items(v) == Some(items@),
            all == items_read(items@),
            forall|k: int| 0 <= k < i ==> (#[trigger] share_read(items@[k])) == Some(out@[k]@),
            forall|k: int| 0 <= k < i ==> (#[trigger] out@[k]).name@.len() > 0,
            forall|a: int, b: int|
                0 <= a < b < i ==> (#[trigger] out@[a]).name@ != (#[trigger] out@[b]).name@,
        decreases items@.len() - i,
    {
        let share = match read_share(&items[i]) {
            Some(share) => share,
            None => {
                assert(share_read(items@[i as int]) is None);
                return None;
            },
        };
        if share.name.as_str().is_empty() {
            assert(all[i as int].name.len() == 0);
            return None;
        }
        if name_among(&out, i, &share.name) {
            let ghost j = choose|j: int| 0 <= j < i && (#[trigger] out@[j]).name@ == share.name@;
            assert(share_read(items@[j]) == Some(out@[j]@));
            assert(all[j].name == all[i as int].name);
            return None;
        }
        out.push(share);
        i += 1;
    }
    proof {
        assert forall|k: int| 0 <= k < all.len() implies (#[trigger] all[k]) == out@[k]@ by {
            assert(share_read(items@[k]) == Some(out@[k]@));
        }
        assert(shares_view(out@) =~= all);
        assert forall|k: int| 0 <= k < all.len() implies (#[trigger] all[k]).name.len() > 0 by {
            assert(out@[k].name@.len() > 0);
        }
        assert forall|a: int, b: int| 0 <= a < b < all.len() implies (#[trigger] all[a]).name != (
        #[trigger] all[b]).name by {
            assert(out@[a].name@ != out@[b].name@);
        }
    }
    Some(out)
}

/// The table that describes one share.
fn share_value(share: &Share) -> (v: toml::Value)
    ensures
        share_read(v) == Some(share@),
{
    let mut v = empty_document();
    set_field(&mut v, "name", text_value(share.name.as_str()));
    set_field(&mut v, "path", text_value(share.path.as_str()));
    proof {
        reveal_strlit("name");
        reveal_strlit("path");
        assert("name"@[0] != "path"@[0]);
    }
    v
}

/// The array that describes a list of shares.
fn shares_value(shares: &Vec<Share>) -> (v: toml::Value)
    requires
        shares_ok(shares_view(shares@)),
    ensures
        shares_read(Some(v)) == Some(shares_view(shares@)),
{
    let mut items: Vec<toml::Value> = Vec::new();
    let mut i: usize = 0;
    while i < shares.len()
        invariant
            i <= shares@.len(),
            items@.len() == i,
            forall|k: int| 0 <= k < i ==> (#[trigger] share_read(items@[k])) == Some(shares@[k]@),
        decreases shares@.len() - i,
    {
        items.push(share_value(&shares[i]));
        i += 1;
    }
    proof {
        assert forall|k: int| 0 <= k < items@.len() implies (#[trigger] items_read(items@)[k])
            == shares@[k]@ by {
            assert(share_read(items@[k]) == Some(shares@[k]@));
        }
        assert(items_read(items@) =~= shares_view(shares@));
    }
    list_value(items)
}

/// Whether two lists hold the same shares in the same order.
fn shares_same(a: &Vec<Share>, b: &Vec<Share>) -> (r: bool)
    ensures
        r == (shares_view(a@) == shares_view(b@)),
{
    if a.len() != b.len() {
        assert(shares_view(a@).len() != shares_view(b@).len());
        return false;
    }
    let mut i: usize = 0;
    while i < a.len()
        invariant
            a@.len() == b@.len(),
            i <= a@.len(),
            forall|k: int| 0 <= k < i ==> (#[trigger] a@[k])@ == b@[k]@,
        decreases a@.len() - i,
    {
        if !(a[i].name == b[i].name) || !(a[i].path == b[i].path) {
            assert(shares_view(a@)[i as int] != shares_view(b@)[i as int]);
            return false;
        }
        i += 1;
    }
    assert(shares_view(a@) =~= shares_view(b@));
    true
}

/// The keys of a document that carry the configuration; all others are kept as they are.
pub open spec fn known_key(key: Seq<char>) -> bool {
    key == "secret_key"@ || key == "user_data"@ || key == "shares"@
}

/// `doc` is `base` with the configuration written into it: it reads as `cfg`, its
/// `secret_key` is one string, the key's bytes in lower-case hexadecimal, and every entry
/// of `base` that is not part of the configuration is there unchanged. With no `base` it
/// holds the configuration alone.
pub open spec fn writes(cfg: ConfigModel, base: Option<toml::Value>, doc: toml::Value) -> bool {
    &&& read_document(doc) == Some(cfg)
    &&& value_fields(doc) is Some
    &&& match lookup(value_fields(doc).unwrap(), "secret_key"@) {
        Some(key) => value_text(key) == Some(hex_lower(cfg.secret_key)),
        None => false,
    }
    &&& forall|key: Seq<char>|
        !known_key(key) ==> #[trigger] lookup(value_fields(doc).unwrap(), key) == match base {
            Some(b) => lookup(value_fields(b).unwrap(), key),
            None => None,
        }
}

/// What a text says, if it is a configuration document.
pub open spec fn config_of_text(text: Seq<char>) -> Option<ConfigModel> {
    match document_parsed(text) {
        Some(doc) => read_document(doc),
        None => None,
    }
}

/// The text of an optional string.
pub open spec fn text_view(text: Option<&str>) -> Option<Seq<char>> {
    match text {
        Some(text) => Some(text@),
        None => None,
    }
}

/// The document that a text holds, where there is a text and it is a document.
pub open spec fn base_of(previous: Option<Seq<char>>) -> Option<toml::Value> {
    match previous {
        Some(text) => document_parsed(text),
        None => None,
    }
}

/// Writing `doc` gives no text that reads back as `cfg`: either no text at all, or one
/// that says something else.
pub open spec fn not_read_back(cfg: ConfigModel, doc: toml::Value) -> bool {
    match document_rendered(doc) {
        Some(text) => config_of_text(text) != Some(cfg),
        None => true,
    }
}

/// The one cause of `ConfigUnwritable`: a document that holds `cfg` over what `previous`
/// held was composed, and writing it gave no text that reads back as `cfg`.
pub open spec fn unwritable(cfg: ConfigModel, previous: Option<Seq<char>>) -> bool {
    exists|doc: toml::Value|
        writes(cfg, base_of(previous), doc) && #[trigger] not_read_back(cfg, doc)
}

/// What the first document of an installation says: the key, the label, no shares.
pub open spec fn first_document(secret_key: Seq<u8>, label: Seq<char>) -> ConfigModel {
    ConfigModel { secret_key, user_data: label, shares: Seq::empty() }
}

/// `text` is what some document is written as that holds `cfg` and, beside it, whatever
/// the document in `previous` held.
pub open spec fn rendered_over(cfg: ConfigModel, previous: Option<Seq<char>>, text: Seq<char>) -> bool {
    exists|doc: toml::Value|
        #[trigger] document_rendered(doc) == Some(text) && writes(cfg, base_of(previous), doc)
}

impl SyncifyConfig {
    /// Every share has a label, and no label occurs twice.
    pub open spec fn wf(&self) -> bool {
        shares_ok(self@.shares)
    }

    /// Reads the configuration from a parsed document. A document without a readable key,
    /// a label or well-formed shares is corrupt.
    pub fn from_document(doc: &toml::Value) -> (r: Result<SyncifyConfig, SyncifyError>)
        ensures
            match r {
                Ok(cfg) => read_document(*doc) == Some(cfg@) && cfg.wf(),
                Err(e) => e == SyncifyError::ConfigCorrupt && read_document(*doc) is None,
            },
    {
        let key_text = match field_of(doc, "secret_key") {
            Some(item) => text_of(&item),
            None => None,
        };
        let label_text = match field_of(doc, "user_data") {
            Some(item) => text_of(&item),
            None => None,
        };
        let (key_text, label_text) = match (key_text, label_text) {
            (Some(key_text), Some(label_text)) => (key_text, label_text),
            _ => {
                return Err(SyncifyError::ConfigCorrupt);
            },
        };
        let secret_key = match SecretKey::parse(key_text.as_str()) {
            Some(key) => key,
            None => {
                return Err(SyncifyError::ConfigCorrupt);
            },
        };
        let shares = match read_shares(field_of(doc, "shares")) {
            Some(shares) => shares,
            None => {
                return Err(SyncifyError::ConfigCorrupt);
            },
        };
        let user_data = match UserData::new(label_text.as_str()) {
            Some(label) => label,
            None => {
                return Err(SyncifyError::ConfigCorrupt);
            },
        };
        Ok(SyncifyConfig { secret_key, user_data, shares })
    }

    /// Writes the configuration into a table: what comes out reads back as this very
    /// configuration, holds the secret key as the string that `SecretKey::to_text` gives,
    /// and keeps every other entry of `base`.
    pub fn to_document(&self, base: toml::Value) -> (doc: toml::Value)
        requires
            self.wf(),
            value_fields(base) is Some,
        ensures
            writes(self@, Some(base), doc),
    {
        let mut doc = base;
        let key_text = self.secret_key.to_text();
        set_field(&mut doc, "secret_key", text_value(key_text.as_str()));
        let label = self.user_data.as_str();
        set_field(&mut doc, "user_data", text_value(label));
        set_field(&mut doc, "shares", shares_value(&self.shares));
        proof {
            reveal_strlit("secret_key");
            reveal_strlit("user_data");
            reveal_strlit("shares");
            assert("secret_key"@.len() == 10 && "user_data"@.len() == 9 && "shares"@.len() == 6);
        }
        doc
    }

    /// Reads the configuration from the text of a document.
    pub fn parse(text: &str) -> (r: Result<SyncifyConfig, SyncifyError>)
        ensures
            match r {
                Ok(cfg) => config_of_text(text@) == Some(cfg@) && cfg.wf(),
                Err(e) => e == SyncifyError::ConfigCorrupt && config_of_text(text@) is None,
            },
    {
        match parse_document(text) {
            Some(doc) => SyncifyConfig::from_document(&doc),
            None => Err(SyncifyError::ConfigCorrupt),
        }
    }

    /// Whether two configurations say the same: key, label and shares.
    pub fn same_as(&self, other: &SyncifyConfig) -> (r: bool)
        ensures
            r == (self@ == other@),
    {
        self.secret_key.same(&other.secret_key) && self.user_data.same(&other.user_data)
            && shares_same(&self.shares, &other.shares)
    }

    /// Takes what writing a document gave, and hands the text on only if it reads back as
    /// this very configuration.
    pub fn confirm(&self, rendered: Option<String>) -> (r: Result<String, SyncifyError>)
        ensures
            match r {
                Ok(text) => rendered == Some(text) && config_of_text(text@) == Some(self@),
                Err(e) => e == SyncifyError::ConfigUnwritable && (rendered is None
                    || config_of_text(rendered.unwrap()@) != Some(self@)),
            },
    {
        let text = match rendered {
            Some(text) => text,
            None => {
                return Err(SyncifyError::ConfigUnwritable);
            },
        };
        match SyncifyConfig::parse(text.as_str()) {
            Ok(back) => if back.same_as(self) {
                Ok(text)
            } else {
                Err(SyncifyError::ConfigUnwritable)
            },
            Err(_) => Err(SyncifyError::ConfigUnwritable),
        }
    }

    /// The text of the document that holds this configuration. Where `previous` is the
    /// text of the document as it stands, its other entries are carried over. The text
    /// that comes back has been read once more: it is a document that says what this
    /// configuration says, secret key included.
    pub fn render(&self, previous: Option<&str>) -> (r: Result<String, SyncifyError>)
        requires
            self.wf(),
        ensures
            match r {
                Ok(text) => config_of_text(text@) == Some(self@) && rendered_over(
                    self@,
                    text_view(previous),
                    text@,
                ),
                Err(e) => if previous is Some && base_of(text_view(previous)) is None {
                    e == SyncifyError::ConfigCorrupt
                } else {
                    e == SyncifyError::ConfigUnwritable
                },
            },
            previous is Some && base_of(text_view(previous)) is None ==> r is Err,
            r is Err && !(previous is Some && base_of(text_view(previous)) is None) ==> unwritable(
                self@,
                text_view(previous),
            ),
    {
        let base = match previous {
            Some(text) => match parse_document(text) {
                Some(doc) => doc,
                None => {
                    return Err(SyncifyError::ConfigCorrupt);
                },
            },
            None => empty_document(),
        };
        let doc = self.to_document(base);
        assert(writes(self@, base_of(text_view(previous)), doc));
        match self.confirm(render_document(&doc)) {
            Ok(text) => {
                assert(document_rendered(doc) == Some(text@));
                Ok(text)
            },
            Err(e) => {
                assert(not_read_back(self@, doc));
                Err(e)
            },
        }
    }

    /// Composes the first document of an installation: the given key and label, no
    /// shares. Returns the configuration and the text to write.
    pub fn first_run(secret_key: SecretKey, label: UserData) -> (r: Result<(SyncifyConfig, String), SyncifyError>)
        ensures
            match r {
                Ok((cfg, text)) => {
                    &&& cfg@.secret_key == secret_key@
                    &&& cfg@.user_data == label@
                    &&& cfg@.shares == Seq::<ShareModel>::empty()
                    &&& cfg.wf()
                    &&& config_of_text(text@) == Some(cfg@)
                    &&& rendered_over(cfg@, None, text@)
                },
                Err(e) => e == SyncifyError::ConfigUnwritable && unwritable(
                    first_document(secret_key@, label@),
                    None,
                ),
            },
    {
        proof {
            use_type_invariant(&label);
        }
        let cfg = SyncifyConfig { secret_key, user_data: label, shares: Vec::new() };
        assert(cfg@.shares =~= Seq::<ShareModel>::empty());
        assert(cfg@ == first_document(secret_key@, label@));
        match cfg.render(None) {
            Ok(text) => Ok((cfg, text)),
            Err(e) => Err(e),
        }
    }

    /// Loads the configuration, or makes it on the first run. `existing` is the text of
    /// the configuration file if there is one, `lock_held` says whether the lock on it
    /// was obtained. With a file, the file decides and nothing is to be written: a file
    /// that cannot be read is corrupt and is never replaced. Without one, a fresh key is
    /// drawn and the text to write comes back with the configuration.
    pub fn new(
        existing: Option<&str>,
        lock_held: bool,
        label: UserData,
    ) -> (r: Result<(SyncifyConfig, Option<String>), SyncifyError>)
        ensures
            !lock_held ==> r == Err::<(SyncifyConfig, Option<String>), SyncifyError>(
                SyncifyError::ConfigLocked,
            ),
            lock_held && existing is Some ==> match r {
                Ok((cfg, out)) => {
                    &&& config_of_text(existing.unwrap()@) == Some(cfg@)
                    &&& cfg.wf()
                    &&& out is None
                },
                Err(e) => e == SyncifyError::ConfigCorrupt && config_of_text(existing.unwrap()@)
                    is None,
            },
            lock_held && existing is None ==> match r {
                Ok((cfg, out)) => {
                    &&& cfg@.user_data == label@
                    &&& cfg@.shares == Seq::<ShareModel>::empty()
                    &&& cfg.wf()
                    &&& out is Some
                    &&& config_of_text(out.unwrap()@) == Some(cfg@)
                    &&& rendered_over(cfg@, None, out.unwrap()@)
                },
                Err(e) => e == SyncifyError::ConfigUnwritable && exists|key: Seq<u8>|
                    key.len() == 32 && unwritable(#[trigger] first_document(key, label@), None),
            },
    {
        if !lock_held {
            return Err(SyncifyError::ConfigLocked);
        }
        match existing {
            Some(text) => match SyncifyConfig::parse(text) {
                Ok(cfg) => Ok((cfg, None)),
                Err(e) => Err(e),
            },
            None => {
                let key = SecretKey::generate();
                let ghost drawn = first_document(key@, label@);
                match SyncifyConfig::first_run(key, label) {
                    Ok((cfg, text)) => Ok((cfg, Some(text))),
                    Err(e) => {
                        assert(key@.len() == 32 && unwritable(drawn, None));
                        Err(e)
                    },
                }
            },
        }
    }

    /// Replaces the shares of the stored configuration. `existing` is the text of the
    /// configuration file, `lock_held` says whether the lock on it was obtained. The key
    /// and the label stay as the file has them. Returns the new configuration and the
    /// text to write.
    pub fn update_shares(
        existing: Option<&str>,
        lock_held: bool,
        shares: Vec<Share>,
    ) -> (r: Result<(SyncifyConfig, String), SyncifyError>)
        ensures
            !lock_held ==> r == Err::<(SyncifyConfig, String), SyncifyError>(
                SyncifyError::ConfigLocked,
            ),
            lock_held && existing is None ==> r == Err::<(SyncifyConfig, String), SyncifyError>(
                SyncifyError::ConfigMissing,
            ),
            lock_held && existing is Some ==> match r {
                Ok((cfg, text)) => {
                    &&& config_of_text(existing.unwrap()@) is Some
                    &&& shares_ok(shares_view(shares@))
                    &&& cfg@ == (ConfigModel {
                        shares: shares_view(shares@),
                        ..config_of_text(existing.unwrap()@).unwrap()
                    })
                    &&& cfg.wf()
                    &&& config_of_text(text@) == Some(cfg@)
                    &&& rendered_over(cfg@, text_view(existing), text@)
                },
                Err(e) => if config_of_text(existing.unwrap()@) is None || !shares_ok(
                    shares_view(shares@),
                ) {
                    e == SyncifyError::ConfigCorrupt
                } else {
                    e == SyncifyError::ConfigUnwritable && unwritable(
                        ConfigModel {
                            shares: shares_view(shares@),
                            ..config_of_text(existing.unwrap()@).unwrap()
                        },
                        text_view(existing),
                    )
                },
            },
    {
        if !lock_held {
            return Err(SyncifyError::ConfigLocked);
        }
        let text = match existing {
            Some(text) => text,
            None => {
                return Err(SyncifyError::ConfigMissing);
            },
        };
        let base = match parse_document(text) {
            Some(doc) => doc,
            None => {
                return Err(SyncifyError::ConfigCorrupt);
            },
        };
        let stored = match SyncifyConfig::from_document(&base) {
            Ok(cfg) => cfg,
            Err(e) => {
                return Err(e);
            },
        };
        if !shares_valid(&shares) {
            return Err(SyncifyError::ConfigCorrupt);
        }
        let cfg = SyncifyConfig {
            secret_key: stored.secret_key,
            user_data: stored.user_data,
            shares,
        };
        let doc = cfg.to_document(base);
        assert(writes(cfg@, base_of(text_view(existing)), doc));
        match cfg.confirm(render_document(&doc)) {
            Ok(out) => {
                assert(document_rendered(doc) == Some(out@));
                Ok((cfg, out))
            },
            Err(e) => {
                assert(not_read_back(cfg@, doc));
                Err(e)
            },
        }
    }
}

} // verus!
