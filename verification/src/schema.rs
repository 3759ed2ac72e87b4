//! The configuration schema: which documents describe a fleet, and the
//! structured records a well-shaped document yields.
//!
//! A document describes a fleet when it is a table holding a `servers`
//! table; each entry of that table names one server and must itself be a
//! table with text fields `ip`, `ssh_key`, `user` and `role` and a `pkgs`
//! list of texts.  `config_of_doc` states that schema mathematically;
//! `extract_config` computes it and is proved to agree.

use vstd::prelude::*;
use crate::doc::{entries_model, find, items_model, lookup, Entry, EntryModel, Item, ItemModel};

verus! {

/// One declared machine: its connection data, role, and package list.
pub struct ServerRecord {
    pub ip: String,
    pub ssh_key: String,
    pub user: String,
    pub role: String,
    pub pkgs: Vec<String>,
}

/// The mathematical model of a `ServerRecord`.
pub ghost struct ServerModel {
    pub ip: Seq<char>,
    pub ssh_key: Seq<char>,
    pub user: Seq<char>,
    pub role: Seq<char>,
    pub pkgs: Seq<Seq<char>>,
}

/// The models of a sequence of strings, in order.
pub open spec fn strings_model(v: Seq<String>) -> Seq<Seq<char>> {
    Seq::new(v.len(), |i: int| v[i]@)
}

impl ServerRecord {
    /// The model of this record.
    pub open spec fn model(self) -> ServerModel {
        ServerModel {
            ip: self.ip@,
            ssh_key: self.ssh_key@,
            user: self.user@,
            role: self.role@,
            pkgs: strings_model(self.pkgs@),
        }
    }
}

/// A named collection of server records, in declaration order.
pub struct FleetConfig {
    pub servers: Vec<(String, ServerRecord)>,
}

impl FleetConfig {
    /// The model of this configuration: the named records, in order.
    pub open spec fn model(self) -> Seq<(Seq<char>, ServerModel)> {
        Seq::new(self.servers@.len(), |i: int| (self.servers@[i].0@, self.servers@[i].1.model()))
    }
}

/// Why a document does not describe a fleet.
#[derive(Debug)]
pub enum SchemaError {
    /// the document has no `servers` entry
    NoServers,
    /// the `servers` entry is not a table
    ServersNotTable,
    /// the entry for this server is not a table
    ServerNotTable(String),
    /// this server (first field) lacks this required field (second field)
    MissingField(String, String),
    /// this field (second field) of this server (first field) is not a text value
    FieldNotText(String, String),
    /// the `pkgs` entry of this server is not a list
    PkgsNotList(String),
    /// an element of the `pkgs` list of this server is not a text value
    PkgNotText(String),
}

/// The mathematical model of a `SchemaError`.
pub ghost enum SchemaErrorModel {
    NoServers,
    ServersNotTable,
    ServerNotTable(Seq<char>),
    MissingField(Seq<char>, Seq<char>),
    FieldNotText(Seq<char>, Seq<char>),
    PkgsNotList(Seq<char>),
    PkgNotText(Seq<char>),
}

impl SchemaError {
    /// The model of this error.
    pub open spec fn model(self) -> SchemaErrorModel {
        match self {
            SchemaError::NoServers => SchemaErrorModel::NoServers,
            SchemaError::ServersNotTable => SchemaErrorModel::ServersNotTable,
            SchemaError::ServerNotTable(name) => SchemaErrorModel::ServerNotTable(name@),
            SchemaError::MissingField(name, field) => SchemaErrorModel::MissingField(
                name@,
                field@,
            ),
            SchemaError::FieldNotText(name, field) => SchemaErrorModel::FieldNotText(
                name@,
                field@,
            ),
            SchemaError::PkgsNotList(name) => SchemaErrorModel::PkgsNotList(name@),
            SchemaError::PkgNotText(name) => SchemaErrorModel::PkgNotText(name@),
        }
    }
}

/// The required text field `field` of server `name`, looked up in `fields`.
pub open spec fn text_field(
    fields: Seq<EntryModel>,
    name: Seq<char>,
    field: Seq<char>,
) -> Result<Seq<char>, SchemaErrorModel> {
    match lookup(fields, field) {
        Option::None => Err(SchemaErrorModel::MissingField(name, field)),
        Option::Some(v) => match v {
            ItemModel::Text(s) => Ok(s),
            _ => Err(SchemaErrorModel::FieldNotText(name, field)),
        },
    }
}

/// Whether every item is a text value.
pub open spec fn all_texts(items: Seq<ItemModel>) -> bool {
    forall|i: int| 0 <= i < items.len() ==> items[i] is Text
}

/// The texts of a sequence of text items, in order.
pub open spec fn texts_of(items: Seq<ItemModel>) -> Seq<Seq<char>> {
    Seq::new(items.len(), |i: int| items[i]->Text_0)
}

/// The required `pkgs` list of server `name`, looked up in `fields`.
pub open spec fn pkgs_field(
    fields: Seq<EntryModel>,
    name: Seq<char>,
) -> Result<Seq<Seq<char>>, SchemaErrorModel> {
    match lookup(fields, "pkgs"@) {
        Option::None => Err(SchemaErrorModel::MissingField(name, "pkgs"@)),
        Option::Some(v) => match v {
            ItemModel::List(items) => if all_texts(items) {
                Ok(texts_of(items))
            } else {
                Err(SchemaErrorModel::PkgNotText(name))
            },
            _ => Err(SchemaErrorModel::PkgsNotList(name)),
        },
    }
}

/// The record that the fields of server `name` describe: every required
/// field present and of the right kind, checked in the order
/// ip, ssh_key, user, role, pkgs; the first failure is the error.
pub open spec fn server_of_fields(
    name: Seq<char>,
    fields: Seq<EntryModel>,
) -> Result<ServerModel, SchemaErrorModel> {
    match text_field(fields, name, "ip"@) {
        Err(e) => Err(e),
        Ok(ip) => match text_field(fields, name, "ssh_key"@) {
            Err(e) => Err(e),
            Ok(ssh_key) => match text_field(fields, name, "user"@) {
                Err(e) => Err(e),
                Ok(user) => match text_field(fields, name, "role"@) {
                    Err(e) => Err(e),
                    Ok(role) => match pkgs_field(fields, name) {
                        Err(e) => Err(e),
                        Ok(pkgs) => Ok(ServerModel { ip, ssh_key, user, role, pkgs }),
                    },
                },
            },
        },
    }
}

/// The record that the entry for server `name` describes.
pub open spec fn server_of_item(
    name: Seq<char>,
    v: ItemModel,
) -> Result<ServerModel, SchemaErrorModel> {
    match v {
        ItemModel::Table(fields) => server_of_fields(name, fields),
        _ => Err(SchemaErrorModel::ServerNotTable(name)),
    }
}

/// The named records that the entries of the `servers` table describe, in
/// order; the first entry that describes none is the error.
pub open spec fn servers_of_entries(
    entries: Seq<EntryModel>,
) -> Result<Seq<(Seq<char>, ServerModel)>, SchemaErrorModel>
    decreases entries.len(),
{
    if entries.len() == 0 {
        Ok(Seq::empty())
    } else {
        match server_of_item(entries[0].key, entries[0].value) {
            Err(e) => Err(e),
            Ok(record) => match servers_of_entries(entries.drop_first()) {
                Err(e) => Err(e),
                Ok(rest) => Ok(seq![(entries[0].key, record)] + rest),
            },
        }
    }
}

/// The fleet that a document describes, or why it describes none.
pub open spec fn config_of_doc(
    doc: ItemModel,
) -> Result<Seq<(Seq<char>, ServerModel)>, SchemaErrorModel> {
    match doc {
        ItemModel::Table(top) => match lookup(top, "servers"@) {
            Option::None => Err(SchemaErrorModel::NoServers),
            Option::Some(v) => match v {
                ItemModel::Table(entries) => servers_of_entries(entries),
                _ => Err(SchemaErrorModel::ServersNotTable),
            },
        },
        _ => Err(SchemaErrorModel::NoServers),
    }
}

/// Whether `field` is one of the required fields of a server record.
pub open spec fn required_field(field: Seq<char>) -> bool {
    ||| field == "ip"@
    ||| field == "ssh_key"@
    ||| field == "user"@
    ||| field == "role"@
    ||| field == "pkgs"@
}

/// An entry that describes no record spoils the whole `servers` table.
pub proof fn lemma_bad_entry_rejects(entries: Seq<EntryModel>, i: int)
    requires
        0 <= i < entries.len(),
        server_of_item(entries[i].key, entries[i].value) is Err,
    ensures
        servers_of_entries(entries) is Err,
    decreases i,
{
    if server_of_item(entries[0].key, entries[0].value) is Err {
    } else {
        assert(entries.drop_first()[i - 1] == entries[i]);
        lemma_bad_entry_rejects(entries.drop_first(), i - 1);
    }
}

/// Fields that lack one of the required fields describe no record.
pub proof fn lemma_missing_field_is_error(
    name: Seq<char>,
    fields: Seq<EntryModel>,
    field: Seq<char>,
)
    requires
        required_field(field),
        lookup(fields, field) is None,
    ensures
        server_of_fields(name, fields) is Err,
{
}

/// A document one of whose server entries lacks a required field describes
/// no fleet.
pub proof fn lemma_missing_field_rejected(
    top: Seq<EntryModel>,
    entries: Seq<EntryModel>,
    i: int,
    fields: Seq<EntryModel>,
    field: Seq<char>,
)
    requires
        lookup(top, "servers"@) == Some(ItemModel::Table(entries)),
        0 <= i < entries.len(),
        entries[i].value == ItemModel::Table(fields),
        required_field(field),
        lookup(fields, field) is None,
    ensures
        config_of_doc(ItemModel::Table(top)) is Err,
{
    lemma_missing_field_is_error(entries[i].key, fields, field);
    lemma_bad_entry_rejects(entries, i);
}

/// A field-extraction result and its model, side by side.
pub open spec fn text_result_model(
    r: Result<String, SchemaError>,
) -> Result<Seq<char>, SchemaErrorModel> {
    match r {
        Ok(s) => Ok(s@),
        Err(e) => Err(e.model()),
    }
}

/// Looks the required text field up, as `text_field` describes.
fn get_text_field(fields: &Vec<Entry>, name: &String, field: &String) -> (r: Result<
    String,
    SchemaError,
>)
    ensures
        text_result_model(r) == text_field(entries_model(fields@), name@, field@),
{
    match find(fields, field) {
        Option::None => Err(SchemaError::MissingField(name.clone(), field.clone())),
        Option::Some(item) => match item {
            Item::Text(s) => Ok(s.clone()),
            _ => Err(SchemaError::FieldNotText(name.clone(), field.clone())),
        },
    }
}

/// A package-list result and its model, side by side.
pub open spec fn pkgs_result_model(
    r: Result<Vec<String>, SchemaError>,
) -> Result<Seq<Seq<char>>, SchemaErrorModel> {
    match r {
        Ok(v) => Ok(strings_model(v@)),
        Err(e) => Err(e.model()),
    }
}

/// Looks the required `pkgs` list up, as `pkgs_field` describes.
#[verifier::loop_isolation(false)]
fn get_pkgs_field(fields: &Vec<Entry>, name: &String) -> (r: Result<Vec<String>, SchemaError>)
    ensures
        pkgs_result_model(r) == pkgs_field(entries_model(fields@), name@),
{
    let key = "pkgs".to_owned();
    match find(fields, &key) {
        Option::None => Err(SchemaError::MissingField(name.clone(), key)),
        Option::Some(item) => match item {
            Item::List(items) => {
                let ghost m = item.model()->List_0;
                proof {
                    assert(m =~= items_model(items@));
                }
                let mut pkgs: Vec<String> = Vec::new();
                let n = items.len();
                let mut i: usize = 0;
                while i < n
                    invariant
                        n == items@.len(),
                        i <= n,
                        m == items_model(items@),
                        pkgs@.len() == i,
                        forall|j: int| 0 <= j < i ==> m[j] is Text,
                        forall|j: int| 0 <= j < i ==> pkgs@[j]@ == m[j]->Text_0,
                    decreases n - i,
                {
                    match &items[i] {
                        Item::Text(s) => {
                            pkgs.push(s.clone());
                        },
                        _ => {
                            proof {
                                assert(!all_texts(m)) by {
                                    assert(0 <= i < m.len() && !(m[i as int] is Text));
                                }
                            }
                            return Err(SchemaError::PkgNotText(name.clone()));
                        },
                    }
                    i = i + 1;
                }
                proof {
                    assert(strings_model(pkgs@) =~= texts_of(m));
                }
                Ok(pkgs)
            },
            _ => Err(SchemaError::PkgsNotList(name.clone())),
        },
    }
}

/// A record-extraction result and its model, side by side.
pub open spec fn server_result_model(
    r: Result<ServerRecord, SchemaError>,
) -> Result<ServerModel, SchemaErrorModel> {
    match r {
        Ok(record) => Ok(record.model()),
        Err(e) => Err(e.model()),
    }
}

/// Extracts one server record, as `server_of_item` describes.
pub fn extract_server(name: &String, v: &Item) -> (r: Result<ServerRecord, SchemaError>)
    ensures
        server_result_model(r) == server_of_item(name@, v.model()),
{
    match v {
        Item::Table(fields) => {
            proof {
                assert(v.model()->Table_0 =~= entries_model(fields@));
            }
            let ip = match get_text_field(fields, name, &"ip".to_owned()) {
                Ok(s) => s,
                Err(e) => {
                    return Err(e);
                },
            };
            let ssh_key = match get_text_field(fields, name, &"ssh_key".to_owned()) {
                Ok(s) => s,
                Err(e) => {
                    return Err(e);
                },
            };
            let user = match get_text_field(fields, name, &"user".to_owned()) {
                Ok(s) => s,
                Err(e) => {
                    return Err(e);
                },
            };
            let role = match get_text_field(fields, name, &"role".to_owned()) {
                Ok(s) => s,
                Err(e) => {
                    return Err(e);
                },
            };
            let pkgs = match get_pkgs_field(fields, name) {
                Ok(list) => list,
                Err(e) => {
                    return Err(e);
                },
            };
            Ok(ServerRecord { ip, ssh_key, user, role, pkgs })
        },
        _ => Err(SchemaError::ServerNotTable(name.clone())),
    }
}

/// A configuration-extraction result and its model, side by side.
pub open spec fn config_result_model(
    r: Result<FleetConfig, SchemaError>,
) -> Result<Seq<(Seq<char>, ServerModel)>, SchemaErrorModel> {
    match r {
        Ok(config) => Ok(config.model()),
        Err(e) => Err(e.model()),
    }
}

/// A sequence of named records put in front of a yet unsettled rest.
pub open spec fn with_prefix(
    prefix: Seq<(Seq<char>, ServerModel)>,
    rest: Result<Seq<(Seq<char>, ServerModel)>, SchemaErrorModel>,
) -> Result<Seq<(Seq<char>, ServerModel)>, SchemaErrorModel> {
    match rest {
        Ok(r) => Ok(prefix + r),
        Err(e) => Err(e),
    }
}

/// The models of the collected pairs, in order.
pub open spec fn pairs_model(v: Seq<(String, ServerRecord)>) -> Seq<(Seq<char>, ServerModel)> {
    Seq::new(v.len(), |i: int| (v[i].0@, v[i].1.model()))
}

/// Extracts the whole configuration, as `config_of_doc` describes.
#[verifier::loop_isolation(false)]
pub fn extract_config(doc: &Item) -> (r: Result<FleetConfig, SchemaError>)
    ensures
        config_result_model(r) == config_of_doc(doc.model()),
{
    let top = match doc {
        Item::Table(entries) => entries,
        _ => {
            return Err(SchemaError::NoServers);
        },
    };
    proof {
        assert(doc.model()->Table_0 =~= entries_model(top@));
    }
    let entries = match find(top, &"servers".to_owned()) {
        Option::None => {
            return Err(SchemaError::NoServers);
        },
        Option::Some(item) => match item {
            Item::Table(entries) => {
                proof {
                    assert(item.model() == ItemModel::Table(entries_model(entries@))) by {
                        assert(item.model()->Table_0 =~= entries_model(entries@));
                    }
                }
                entries
            },
            _ => {
                return Err(SchemaError::ServersNotTable);
            },
        },
    };
    let ghost em = entries_model(entries@);
    let mut out: Vec<(String, ServerRecord)> = Vec::new();
    let n = entries.len();
    let mut i: usize = 0;
    proof {
        assert(em.skip(0) =~= em);
        assert(pairs_model(out@) =~= Seq::<(Seq<char>, ServerModel)>::empty());
        assert(with_prefix(pairs_model(out@), servers_of_entries(em))
            == servers_of_entries(em)) by {
            match servers_of_entries(em) {
                Ok(r) => {
                    assert(pairs_model(out@) + r =~= r);
                },
                Err(_) => {},
            }
        }
    }
    while i < n
        invariant
            n == entries@.len(),
            i <= n,
            em == entries_model(entries@),
            with_prefix(pairs_model(out@), servers_of_entries(em.skip(i as int)))
                == servers_of_entries(em),
        decreases n - i,
    {
        proof {
            assert(em.skip(i as int)[0] == entries@[i as int].model());
            assert(em.skip(i as int).drop_first() =~= em.skip(i + 1));
        }
        match extract_server(&entries[i].key, &entries[i].value) {
            Err(e) => {
                proof {
                    assert(em.skip(i as int)[0].key == entries@[i as int].key@);
                    assert(servers_of_entries(em.skip(i as int)) == Err::<
                        Seq<(Seq<char>, ServerModel)>,
                        SchemaErrorModel,
                    >(e.model()));
                }
                return Err(e);
            },
            Ok(record) => {
                let ghost old_pairs = pairs_model(out@);
                let ghost rec_m = record.model();
                let ghost key_m = entries@[i as int].key@;
                out.push((entries[i].key.clone(), record));
                proof {
                    assert(pairs_model(out@) =~= old_pairs + seq![(key_m, rec_m)]);
                    match servers_of_entries(em.skip(i + 1)) {
                        Ok(rest) => {
                            assert((old_pairs + seq![(key_m, rec_m)]) + rest
                                =~= old_pairs + (seq![(key_m, rec_m)] + rest));
                        },
                        Err(_) => {},
                    }
                }
            },
        }
        i = i + 1;
    }
    proof {
        assert(em.skip(n as int) =~= Seq::<EntryModel>::empty());
        match servers_of_entries(em) {
            Ok(r) => {
                assert(pairs_model(out@) + Seq::<(Seq<char>, ServerModel)>::empty()
                    =~= pairs_model(out@));
            },
            Err(_) => {},
        }
    }
    let config = FleetConfig { servers: out };
    proof {
        assert(config.model() =~= pairs_model(config.servers@));
    }
    Ok(config)
}

} // verus!
