//! What the user interface is told about the template store.

use vstd::prelude::*;
use crate::database::spec_find;
use crate::database::spec_removed;
use crate::database::spec_saved;
use crate::database::spec_templates;
use crate::database::Database;
use crate::templates::Template;
use crate::templates::TemplateView;

verus! {

/// What an answer carries.
#[derive(Debug)]
pub enum ResponseData {
    Template(Template),
    Templates(Vec<Template>),
}

/// The mathematical content of what an answer carries.
pub enum DataView {
    Template(TemplateView),
    Templates(Seq<TemplateView>),
}

impl View for ResponseData {
    type V = DataView;

    open spec fn view(&self) -> DataView {
        match self {
            ResponseData::Template(template) => DataView::Template(template@),
            ResponseData::Templates(templates) => DataView::Templates(spec_templates(templates@)),
        }
    }
}

/// The mathematical content of an answer.
pub struct ResponseView {
    pub success: bool,
    pub message: Seq<char>,
    pub data: Option<DataView>,
}

/// An answer to the user interface: whether the request succeeded, a
/// message for the user and what was asked for, if anything.
#[derive(Debug)]
pub struct JsonResponse {
    pub success: bool,
    pub message: String,
    pub data: Option<ResponseData>,
}

impl View for JsonResponse {
    type V = ResponseView;

    open spec fn view(&self) -> ResponseView {
        ResponseView {
            success: self.success,
            message: self.message@,
            data: match self.data {
                Some(data) => Some(data@),
                None => None,
            },
        }
    }
}

/// Answers the requests of the user interface.
#[derive(Clone, Copy, Debug)]
pub struct FrontendInterface {}

impl FrontendInterface {
    pub fn new() -> (interface: FrontendInterface) {
        Self {  }
    }

    /// Keeps a template in the store and says so.
    pub fn save_template(&self, database: &mut Database, template: Template) -> (response: JsonResponse)
        ensures
            final(database)@.file_path == old(database)@.file_path,
            final(database)@.content == Some(spec_saved(old(database)@.templates(), template@)),
            response@ == (ResponseView {
                success: true,
                message: "Successfully saved template"@,
                data: None,
            }),
    {
        database.save_template(&template);
        JsonResponse { success: true, message: "Successfully saved template".to_owned(), data: None }
    }

    /// Takes a template out of the store and says so.
    pub fn delete_template(&self, database: &mut Database, id: String) -> (response: JsonResponse)
        ensures
            final(database)@.file_path == old(database)@.file_path,
            final(database)@.content == Some(spec_removed(old(database)@.templates(), id@)),
            response@ == (ResponseView {
                success: true,
                message: "Template deleted successfully"@,
                data: None,
            }),
    {
        database.delete_template(id.as_str());
        JsonResponse {
            success: true,
            message: "Template deleted successfully".to_owned(),
            data: None,
        }
    }

    /// Answers with the templates of the store.
    pub fn get_templates(&self, database: &Database) -> (response: JsonResponse)
        ensures
            response@ == (ResponseView {
                success: true,
                message: "Templates fetched successfully"@,
                data: Some(DataView::Templates(database@.templates())),
            }),
    {
        let templates: Vec<Template> = database.list_templates();
        JsonResponse {
            success: true,
            message: "Templates fetched successfully".to_owned(),
            data: Some(ResponseData::Templates(templates)),
        }
    }

    /// Answers with the template that has the identifier `id`, or says
    /// that there is none.
    pub fn get_template(&self, database: &Database, id: String) -> (response: JsonResponse)
        ensures
            response@ == match spec_find(database@.templates(), id@) {
                Some(index) => ResponseView {
                    success: true,
                    message: "Template fetched successfully"@,
                    data: Some(DataView::Template(database@.templates()[index])),
                },
                None => ResponseView { success: false, message: "Template not found"@, data: None },
            },
    {
        match database.load_template(id.as_str()) {
            Some(template) => JsonResponse {
                success: true,
                message: "Template fetched successfully".to_owned(),
                data: Some(ResponseData::Template(template)),
            },
            None => JsonResponse {
                success: false,
                message: "Template not found".to_owned(),
                data: None,
            },
        }
    }
}

} // verus!
