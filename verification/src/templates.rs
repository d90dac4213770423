//! Templates: named barcode requests that are kept for later use.

use vstd::prelude::*;
use crate::barcode_config::BarcodeConfig;
use crate::barcode_config::ConfigView;
use crate::database::spec_find;
use crate::database::spec_removed;
use crate::database::spec_saved;
use crate::database::Database;

verus! {

/// Number of characters of a template identifier that the library makes.
pub const ID_LENGTH: usize = 36;

/// The mathematical content of a template.
pub struct TemplateView {
    pub config: ConfigView,
    pub name: Seq<char>,
    pub description: Seq<char>,
    pub id: Seq<char>,
}

/// A barcode request under a name, with a description and an identifier.
#[derive(Debug)]
pub struct Template {
    pub config: BarcodeConfig,
    pub name: String,
    pub description: String,
    pub id: String,
}

impl View for Template {
    type V = TemplateView;

    open spec fn view(&self) -> TemplateView {
        TemplateView {
            config: self.config@,
            name: self.name@,
            description: self.description@,
            id: self.id@,
        }
    }
}

impl Clone for Template {
    fn clone(&self) -> (copy: Self)
        ensures
            copy@ == self@,
    {
        Template {
            config: self.config.clone(),
            name: self.name.clone(),
            description: self.description.clone(),
            id: self.id.clone(),
        }
    }
}

/// Calls `Uuid::new_v4` of the `uuid` crate and writes the identifier out
/// with `to_string`. The identifier is random; the contract claims only that
/// it has the 36 characters of the hyphenated form.
#[verifier::external_body]
fn fresh_id() -> (id: String)
    ensures
        id@.len() == ID_LENGTH,
{
    uuid::Uuid::new_v4().to_string()
}

impl Template {
    /// A template with a fresh identifier of 36 characters.
    pub fn new(config: BarcodeConfig, name: String, description: String) -> (template: Self)
        ensures
            template@.config == config@,
            template@.name == name@,
            template@.description == description@,
            template@.id.len() == ID_LENGTH,
    {
        Template { config, name, description, id: fresh_id() }
    }

    /// A template with the given identifier.
    pub fn with_id(config: BarcodeConfig, name: String, description: String, id: String) -> (template: Self)
        ensures
            template@ == (TemplateView {
                config: config@,
                name: name@,
                description: description@,
                id: id@,
            }),
    {
        Template { config, name, description, id }
    }

    /// This template with another request.
    pub fn from_config(self, config: BarcodeConfig) -> (template: Self)
        ensures
            template@ == (TemplateView { config: config@, ..self@ }),
    {
        Template { config, name: self.name, description: self.description, id: self.id }
    }

    /// Gives this template a fresh identifier of 36 characters.
    pub fn generate_new_id(&mut self)
        ensures
            final(self)@.config == old(self)@.config,
            final(self)@.name == old(self)@.name,
            final(self)@.description == old(self)@.description,
            final(self)@.id.len() == ID_LENGTH,
    {
        self.id = fresh_id();
    }
}

/// Why a template could not be had.
#[derive(Clone, Copy, Debug, PartialEq, Eq, Structural)]
pub enum TemplateError {
    /// The store holds no template with the identifier asked for.
    NotFound,
}

impl TemplateError {
    /// The text that tells a user what is wrong.
    pub fn message(&self) -> (message: String)
        ensures
            message@ == "Template not found"@,
    {
        "Template not found".to_owned()
    }
}

/// Keeps a template in the store, in place of the one with its identifier
/// if there is one.
pub fn save_template(database: &mut Database, template: Template)
    ensures
        final(database)@.file_path == old(database)@.file_path,
        final(database)@.content == Some(spec_saved(old(database)@.templates(), template@)),
{
    database.save_template(&template);
}

/// The templates of the store.
pub fn get_templates(database: &Database) -> (templates: Vec<Template>)
    ensures
        crate::database::spec_templates(templates@) == database@.templates(),
{
    database.list_templates()
}

/// The template of the store with the identifier `id`.
pub fn get_template(database: &Database, id: String) -> (found: Result<Template, TemplateError>)
    ensures
        match found {
            Ok(template) => spec_find(database@.templates(), id@) is Some
                && template@ == database@.templates()[spec_find(database@.templates(), id@)->0],
            Err(error) => error == TemplateError::NotFound && spec_find(
                database@.templates(),
                id@,
            ) is None,
        },
{
    match database.load_template(id.as_str()) {
        Some(template) => Ok(template),
        None => Err(TemplateError::NotFound),
    }
}

/// Takes the template with the identifier `id` out of the store, if there
/// is one.
pub fn delete_template(database: &mut Database, id: &str)
    ensures
        final(database)@.file_path == old(database)@.file_path,
        final(database)@.content == Some(spec_removed(old(database)@.templates(), id@)),
{
    database.delete_template(id);
}

} // verus!
