//! The two file-backed operations: init, which decides whether to write the
//! template, and run, which loads the configuration text into records.
//!
//! Neither function here touches a file: init is modelled as a decision from
//! what is on disk to what will be on disk, and run takes the file content,
//! if a file exists, as an argument.

use vstd::prelude::*;
use crate::schema::{
    config_of_doc, extract_config, FleetConfig, SchemaError, SchemaErrorModel, ServerModel,
};
use crate::template::template;
use crate::toml_read::{parse_document, toml_doc};

verus! {

/// Why the run operation fails.
#[derive(Debug)]
pub enum FleetError {
    /// there is no configuration file, so init must run first
    MissingFile,
    /// the text is not a well-formed document; the message says why
    Syntax(String),
    /// the document does not describe a fleet
    Schema(SchemaError),
}

/// The mathematical model of a `FleetError`.
pub ghost enum FleetErrorModel {
    MissingFile,
    Syntax(Seq<char>),
    Schema(SchemaErrorModel),
}

impl FleetError {
    /// The model of this error.
    pub open spec fn model(self) -> FleetErrorModel {
        match self {
            FleetError::MissingFile => FleetErrorModel::MissingFile,
            FleetError::Syntax(message) => FleetErrorModel::Syntax(message@),
            FleetError::Schema(e) => FleetErrorModel::Schema(e.model()),
        }
    }
}

/// The fleet a configuration text describes: the parsed document's records,
/// or the parse error, or the schema error.
pub open spec fn load_spec(text: Seq<char>) -> Result<
    Seq<(Seq<char>, ServerModel)>,
    FleetErrorModel,
> {
    match toml_doc(text) {
        Err(message) => Err(FleetErrorModel::Syntax(message)),
        Ok(doc) => match config_of_doc(doc) {
            Err(e) => Err(FleetErrorModel::Schema(e)),
            Ok(c) => Ok(c),
        },
    }
}

/// A load result and its model, side by side.
pub open spec fn load_result_model(r: Result<FleetConfig, FleetError>) -> Result<
    Seq<(Seq<char>, ServerModel)>,
    FleetErrorModel,
> {
    match r {
        Ok(c) => Ok(c.model()),
        Err(e) => Err(e.model()),
    }
}

/// Parses and checks a configuration text, as `load_spec` describes.
pub fn load_fleet(text: &str) -> (r: Result<FleetConfig, FleetError>)
    ensures
        load_result_model(r) == load_spec(text@),
{
    match parse_document(text) {
        Err(message) => Err(FleetError::Syntax(message)),
        Ok(doc) => match extract_config(&doc) {
            Err(e) => Err(FleetError::Schema(e)),
            Ok(c) => Ok(c),
        },
    }
}

/// The file content as a sequence of characters, if a file exists.
pub open spec fn content_model(content: Option<&str>) -> Option<Seq<char>> {
    match content {
        Option::None => None,
        Option::Some(text) => Some(text@),
    }
}

/// The outcome of the run operation: without a file it fails and asks for
/// init; with one it loads the content.
pub open spec fn run_spec(content: Option<Seq<char>>) -> Result<
    Seq<(Seq<char>, ServerModel)>,
    FleetErrorModel,
> {
    match content {
        Option::None => Err(FleetErrorModel::MissingFile),
        Option::Some(text) => load_spec(text),
    }
}

/// Computes the outcome of the run operation, as `run_spec` describes.
pub fn run_outcome(content: Option<&str>) -> (r: Result<FleetConfig, FleetError>)
    ensures
        load_result_model(r) == run_spec(content_model(content)),
{
    match content {
        Option::None => Err(FleetError::MissingFile),
        Option::Some(text) => load_fleet(text),
    }
}

/// What the init operation does to the configuration file.
pub enum InitAction {
    /// write the template, replacing whatever is there
    WriteTemplate,
    /// keep the existing file untouched
    KeepExisting,
}

/// The action init takes: write, unless a file exists and force is unset.
pub open spec fn init_action_spec(file_exists: bool, force: bool) -> InitAction {
    if file_exists && !force {
        InitAction::KeepExisting
    } else {
        InitAction::WriteTemplate
    }
}

/// The content of the configuration file after init, from the content
/// before it, if any.
pub open spec fn init_content(existing: Option<Seq<char>>, force: bool) -> Seq<char> {
    if init_action_spec(existing is Some, force) is WriteTemplate {
        template()
    } else {
        existing->0
    }
}

/// Decides the init action, as `init_action_spec` describes.
pub fn init_decision(file_exists: bool, force: bool) -> (r: InitAction)
    ensures
        r == init_action_spec(file_exists, force),
        r is WriteTemplate <==> (!file_exists || force),
{
    if file_exists && !force {
        InitAction::KeepExisting
    } else {
        InitAction::WriteTemplate
    }
}

/// On a directory with no file, init writes exactly the template, whether or
/// not overwriting is forced.
pub proof fn lemma_init_fresh_writes_template(force: bool)
    ensures
        init_content(None, force) == template(),
{
}

/// On an existing file without force, init leaves the content unchanged.
pub proof fn lemma_init_unforced_keeps_content(content: Seq<char>)
    ensures
        init_content(Some(content), false) == content,
{
}

/// On an existing file with force, init overwrites it with the template.
pub proof fn lemma_init_forced_overwrites(content: Seq<char>)
    ensures
        init_content(Some(content), true) == template(),
{
}

/// Without a configuration file the run operation fails and yields no
/// records.
pub proof fn lemma_run_missing_file()
    ensures
        run_spec(None) == Err::<Seq<(Seq<char>, ServerModel)>, FleetErrorModel>(
            FleetErrorModel::MissingFile,
        ),
{
}

/// A text the parser rejects loads as the syntax error carrying the parser's
/// message, and yields no records.
pub proof fn lemma_ill_formed_rejected(text: Seq<char>)
    requires
        toml_doc(text) is Err,
    ensures
        load_spec(text) == Err::<Seq<(Seq<char>, ServerModel)>, FleetErrorModel>(
            FleetErrorModel::Syntax(toml_doc(text)->Err_0),
        ),
{
}

/// A well-formed text one of whose server entries lacks a required field
/// fails to load: the run operation reports an error and yields no records.
pub proof fn lemma_missing_field_fails_run(
    text: Seq<char>,
    top: Seq<crate::doc::EntryModel>,
    entries: Seq<crate::doc::EntryModel>,
    i: int,
    fields: Seq<crate::doc::EntryModel>,
    field: Seq<char>,
)
    requires
        toml_doc(text) == Ok::<crate::doc::ItemModel, Seq<char>>(
            crate::doc::ItemModel::Table(top),
        ),
        crate::doc::lookup(top, "servers"@) == Some(
            crate::doc::ItemModel::Table(entries),
        ),
        0 <= i < entries.len(),
        entries[i].value == crate::doc::ItemModel::Table(fields),
        crate::schema::required_field(field),
        crate::doc::lookup(fields, field) is None,
    ensures
        load_spec(text) is Err,
{
    crate::schema::lemma_missing_field_rejected(top, entries, i, fields, field);
}

} // verus!
