//! The template store: the content of one file, held in memory. Reading the
//! file and writing it back is left to the caller; the store says what the
//! file holds after each change.

use vstd::prelude::*;
use crate::templates::Template;
use crate::templates::TemplateView;

verus! {

/// The mathematical content of a list of templates.
pub open spec fn spec_templates(templates: Seq<Template>) -> Seq<TemplateView> {
    templates.map_values(|template: Template| template@)
}

/// No two templates share an identifier.
pub open spec fn spec_distinct(templates: Seq<TemplateView>) -> bool {
    forall|i: int, j: int| 0 <= i < j < templates.len() ==> templates[i].id != templates[j].id
}

/// Whether one of the templates has the identifier `id`.
pub open spec fn spec_has(templates: Seq<TemplateView>, id: Seq<char>) -> bool {
    exists|i: int| 0 <= i < templates.len() && templates[i].id == id
}

/// Where the template with the identifier `id` stands, if there is one.
pub open spec fn spec_find(templates: Seq<TemplateView>, id: Seq<char>) -> Option<int> {
    if spec_has(templates, id) {
        Some(choose|i: int| 0 <= i < templates.len() && templates[i].id == id)
    } else {
        None
    }
}

/// The templates after `template` was saved: in place of the one with its
/// identifier if there is one, else after the others.
pub open spec fn spec_saved(templates: Seq<TemplateView>, template: TemplateView) -> Seq<TemplateView> {
    match spec_find(templates, template.id) {
        Some(i) => templates.update(i, template),
        None => templates.push(template),
    }
}

/// The templates without the one that has the identifier `id`.
pub open spec fn spec_removed(templates: Seq<TemplateView>, id: Seq<char>) -> Seq<TemplateView> {
    match spec_find(templates, id) {
        Some(i) => templates.remove(i),
        None => templates,
    }
}

/// The templates after each of `added` was saved, in order.
pub open spec fn spec_saved_all(templates: Seq<TemplateView>, added: Seq<TemplateView>) -> Seq<TemplateView>
    decreases added.len(),
{
    if added.len() == 0 {
        templates
    } else {
        spec_saved(spec_saved_all(templates, added.drop_last()), added.last())
    }
}

/// Among templates with distinct identifiers, a template stands where its
/// identifier is found.
pub proof fn lemma_find_unique(templates: Seq<TemplateView>, index: int)
    requires
        spec_distinct(templates),
        0 <= index < templates.len(),
    ensures
        spec_find(templates, templates[index].id) == Some(index),
{
    let id = templates[index].id;
    let found = choose|i: int| 0 <= i < templates.len() && templates[i].id == id;
    if found < index {
        assert(templates[found].id != templates[index].id);
    } else if index < found {
        assert(templates[index].id != templates[found].id);
    }
}

/// Saving a template keeps the identifiers distinct, and the template is
/// then found under its identifier.
pub proof fn lemma_saved(templates: Seq<TemplateView>, template: TemplateView)
    requires
        spec_distinct(templates),
    ensures
        spec_distinct(spec_saved(templates, template)),
        spec_find(spec_saved(templates, template), template.id) is Some,
        spec_saved(templates, template)[spec_find(spec_saved(templates, template), template.id)->0]
            == template,
{
    let saved = spec_saved(templates, template);
    match spec_find(templates, template.id) {
        Some(i) => {
            assert forall|a: int, b: int| 0 <= a < b < saved.len() implies saved[a].id
                != saved[b].id by {
                assert(templates[a].id != templates[b].id);
            }
            lemma_find_unique(saved, i);
        },
        None => {
            assert forall|a: int, b: int| 0 <= a < b < saved.len() implies saved[a].id
                != saved[b].id by {
                if b < templates.len() {
                    assert(templates[a].id != templates[b].id);
                }
            }
            lemma_find_unique(saved, templates.len() as int);
        },
    }
}

/// Removing a template keeps the identifiers distinct, and no template is
/// then found under the identifier.
pub proof fn lemma_removed(templates: Seq<TemplateView>, id: Seq<char>)
    requires
        spec_distinct(templates),
    ensures
        spec_distinct(spec_removed(templates, id)),
        spec_find(spec_removed(templates, id), id) is None,
{
    let removed = spec_removed(templates, id);
    match spec_find(templates, id) {
        Some(i) => {
            assert forall|a: int, b: int| 0 <= a < b < removed.len() implies removed[a].id
                != removed[b].id by {
                let before_a = if a < i {
                    a
                } else {
                    a + 1
                };
                let before_b = if b < i {
                    b
                } else {
                    b + 1
                };
                assert(templates[before_a].id != templates[before_b].id);
            }
            assert forall|a: int| 0 <= a < removed.len() implies removed[a].id != id by {
                let before = if a < i {
                    a
                } else {
                    a + 1
                };
                if before < i {
                    assert(templates[before].id != templates[i].id);
                } else {
                    assert(templates[i].id != templates[before].id);
                }
            }
        },
        None => {},
    }
}

/// Saving templates one after another keeps the identifiers distinct.
pub proof fn lemma_saved_all(templates: Seq<TemplateView>, added: Seq<TemplateView>)
    requires
        spec_distinct(templates),
    ensures
        spec_distinct(spec_saved_all(templates, added)),
    decreases added.len(),
{
    if added.len() > 0 {
        lemma_saved_all(templates, added.drop_last());
        lemma_saved(spec_saved_all(templates, added.drop_last()), added.last());
    }
}

/// Where the template with the identifier `id` stands, if there is one.
pub fn position(templates: &Vec<Template>, id: &str) -> (found: Option<usize>)
    requires
        spec_distinct(spec_templates(templates@)),
    ensures
        match found {
            Some(index) => spec_find(spec_templates(templates@), id@) == Some(index as int)
                && index < templates@.len(),
            None => spec_find(spec_templates(templates@), id@) is None,
        },
{
    let wanted: String = id.to_owned();
    let mut index: usize = 0;
    while index < templates.len()
        invariant
            index <= templates.len(),
            wanted@ == id@,
            spec_distinct(spec_templates(templates@)),
            forall|k: int| 0 <= k < index ==> spec_templates(templates@)[k].id != id@,
        decreases templates.len() - index,
    {
        if templates[index].id == wanted {
            proof {
                lemma_find_unique(spec_templates(templates@), index as int);
            }
            return Some(index);
        }
        index += 1;
    }
    None
}

/// Copies of templates.
pub fn copy_templates(templates: &Vec<Template>) -> (copies: Vec<Template>)
    ensures
        spec_templates(copies@) == spec_templates(templates@),
{
    let mut copies: Vec<Template> = Vec::new();
    let mut i: usize = 0;
    while i < templates.len()
        invariant
            i <= templates.len(),
            copies@.len() == i,
            forall|k: int| 0 <= k < i ==> copies@[k]@ == templates@[k]@,
        decreases templates.len() - i,
    {
        copies.push(templates[i].clone());
        i += 1;
    }
    assert(spec_templates(copies@) =~= spec_templates(templates@));
    copies
}

/// The templates after `template` was saved.
pub fn saved(templates: &Vec<Template>, template: &Template) -> (result: Vec<Template>)
    requires
        spec_distinct(spec_templates(templates@)),
    ensures
        spec_templates(result@) == spec_saved(spec_templates(templates@), template@),
        spec_distinct(spec_templates(result@)),
{
    proof {
        lemma_saved(spec_templates(templates@), template@);
    }
    let place: Option<usize> = position(templates, template.id.as_str());
    let mut result: Vec<Template> = Vec::new();
    let mut i: usize = 0;
    while i < templates.len()
        invariant
            i <= templates.len(),
            result@.len() == i,
            forall|k: int|
                0 <= k < i ==> result@[k]@ == if place == Some(k as usize) {
                    template@
                } else {
                    templates@[k]@
                },
        decreases templates.len() - i,
    {
        if place == Some(i) {
            result.push(template.clone());
        } else {
            result.push(templates[i].clone());
        }
        i += 1;
    }
    if place.is_none() {
        result.push(template.clone());
    }
    assert(spec_templates(result@) =~= spec_saved(spec_templates(templates@), template@));
    result
}

/// The templates without the one that has the identifier `id`.
pub fn removed(templates: &Vec<Template>, id: &str) -> (result: Vec<Template>)
    requires
        spec_distinct(spec_templates(templates@)),
    ensures
        spec_templates(result@) == spec_removed(spec_templates(templates@), id@),
        spec_distinct(spec_templates(result@)),
{
    proof {
        lemma_removed(spec_templates(templates@), id@);
    }
    match position(templates, id) {
        None => copy_templates(templates),
        Some(place) => {
            let mut result: Vec<Template> = Vec::new();
            let mut i: usize = 0;
            while i < templates.len()
                invariant
                    i <= templates.len(),
                    place < templates.len(),
                    result@.len() == if i <= place {
                        i as int
                    } else {
                        i - 1
                    },
                    forall|k: int|
                        0 <= k < result@.len() ==> result@[k]@ == if k < place {
                            templates@[k]@
                        } else {
                            templates@[k + 1]@
                        },
                decreases templates.len() - i,
            {
                if i != place {
                    result.push(templates[i].clone());
                }
                i += 1;
            }
            assert(spec_templates(result@) =~= spec_templates(templates@).remove(place as int));
            result
        },
    }
}

/// The mathematical content of a store: the path of its file and what the
/// file holds, or nothing when there is no file.
pub struct DatabaseView {
    pub file_path: Seq<char>,
    pub content: Option<Seq<TemplateView>>,
}

impl DatabaseView {
    /// The templates that the file holds; none when there is no file.
    pub open spec fn templates(self) -> Seq<TemplateView> {
        match self.content {
            Some(templates) => templates,
            None => Seq::empty(),
        }
    }
}

/// The template store of one file.
#[derive(Debug)]
pub struct Database {
    file_path: String,
    content: Option<Vec<Template>>,
}

impl View for Database {
    type V = DatabaseView;

    closed spec fn view(&self) -> DatabaseView {
        DatabaseView {
            file_path: self.file_path@,
            content: match self.content {
                Some(templates) => Some(spec_templates(templates@)),
                None => None,
            },
        }
    }
}

impl Database {
    #[verifier::type_invariant]
    spec fn inv(self) -> bool {
        self.content is Some ==> spec_distinct(spec_templates(self.content->0@))
    }

    /// The store of a file that does not exist yet.
    pub fn new(file_path: String) -> (database: Self)
        ensures
            database@ == (DatabaseView { file_path: file_path@, content: None }),
    {
        Database { file_path, content: None }
    }

    /// The store of a file that holds `templates`. Of templates that share
    /// an identifier the last one stays.
    pub fn opened(file_path: String, templates: Vec<Template>) -> (database: Self)
        ensures
            database@ == (DatabaseView {
                file_path: file_path@,
                content: Some(spec_saved_all(Seq::empty(), spec_templates(templates@))),
            }),
    {
        let mut database = Database { file_path, content: None };
        database.save_templates(templates);
        database
    }

    /// The path of the file.
    pub fn file_path(&self) -> (path: &String)
        ensures
            path@ == self@.file_path,
    {
        &self.file_path
    }

    /// Whether the file exists.
    pub fn file_exists(&self) -> (present: bool)
        ensures
            present == self@.content is Some,
    {
        self.content.is_some()
    }

    /// Forgets the file and what it holds.
    pub fn delete(&mut self)
        ensures
            final(self)@ == (DatabaseView { file_path: old(self)@.file_path, content: None }),
    {
        self.content = None;
    }

    /// The templates that the file holds; none when there is no file. The
    /// identifiers of the templates are distinct.
    pub fn load_or_default(&self) -> (templates: Vec<Template>)
        ensures
            spec_templates(templates@) == self@.templates(),
            spec_distinct(spec_templates(templates@)),
    {
        proof {
            use_type_invariant(self);
        }
        match &self.content {
            Some(templates) => copy_templates(templates),
            None => {
                let templates: Vec<Template> = Vec::new();
                assert(spec_templates(templates@) =~= Seq::empty());
                templates
            },
        }
    }

    /// The templates that the file holds; none when there is no file.
    pub fn load_templates(&self) -> (templates: Vec<Template>)
        ensures
            spec_templates(templates@) == self@.templates(),
            spec_distinct(spec_templates(templates@)),
    {
        self.load_or_default()
    }

    /// The templates that the file holds; none when there is no file.
    pub fn list_templates(&self) -> (templates: Vec<Template>)
        ensures
            spec_templates(templates@) == self@.templates(),
            spec_distinct(spec_templates(templates@)),
    {
        self.load_or_default()
    }

    /// Makes the file hold `templates` and nothing else. Of templates that
    /// share an identifier the last one stays.
    pub fn save_templates(&mut self, templates: Vec<Template>)
        ensures
            final(self)@.file_path == old(self)@.file_path,
            final(self)@.content == Some(
                spec_saved_all(Seq::empty(), spec_templates(templates@)),
            ),
    {
        let ghost added = spec_templates(templates@);
        let mut kept: Vec<Template> = Vec::new();
        let mut i: usize = 0;
        assert(added.subrange(0, 0) =~= Seq::empty());
        assert(spec_templates(kept@) =~= Seq::empty());
        while i < templates.len()
            invariant
                i <= templates.len(),
                added == spec_templates(templates@),
                spec_templates(kept@) == spec_saved_all(Seq::empty(), added.subrange(0, i as int)),
                spec_distinct(spec_templates(kept@)),
            decreases templates.len() - i,
        {
            proof {
                let longer = added.subrange(0, i + 1);
                assert(longer.drop_last() =~= added.subrange(0, i as int));
                assert(longer.last() == templates@[i as int]@);
            }
            kept = saved(&kept, &templates[i]);
            i += 1;
        }
        assert(added.subrange(0, i as int) =~= added);
        self.content = Some(kept);
    }

    /// Keeps a template in the file, in place of the one with its
    /// identifier if there is one.
    pub fn save_template(&mut self, template: &Template)
        ensures
            final(self)@.file_path == old(self)@.file_path,
            final(self)@.content == Some(spec_saved(old(self)@.templates(), template@)),
    {
        let held: Vec<Template> = self.load_or_default();
        let kept: Vec<Template> = saved(&held, template);
        self.content = Some(kept);
    }

    /// The template with the identifier `id`, if the file holds one.
    pub fn load_template(&self, id: &str) -> (found: Option<Template>)
        ensures
            match found {
                Some(template) => spec_find(self@.templates(), id@) is Some && template@
                    == self@.templates()[spec_find(self@.templates(), id@)->0],
                None => spec_find(self@.templates(), id@) is None,
            },
    {
        let held: Vec<Template> = self.load_or_default();
        match position(&held, id) {
            Some(index) => {
                assert(spec_templates(held@)[index as int] == held@[index as int]@);
                Some(held[index].clone())
            },
            None => None,
        }
    }

    /// Takes the template with the identifier `id` out of the file, if the
    /// file holds one.
    pub fn delete_template(&mut self, id: &str)
        ensures
            final(self)@.file_path == old(self)@.file_path,
            final(self)@.content == Some(spec_removed(old(self)@.templates(), id@)),
    {
        let held: Vec<Template> = self.load_or_default();
        let kept: Vec<Template> = removed(&held, id);
        self.content = Some(kept);
    }
}

} // verus!
