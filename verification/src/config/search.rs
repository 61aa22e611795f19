use vstd::prelude::*;

verus! {

/// A field of a vault entry that a search looks at.
#[derive(Debug, Clone, Copy, PartialEq, Eq, Structural)]
pub enum Field {
    Title,
    Username,
    Tags,
    Notes,
    Url,
}

/// What a search over the vault's entries looks at.
#[derive(Debug)]
pub struct Search {
    pub fields: Vec<Field>,
    pub extra_fields: bool,
    pub allow_regex: bool,
}

/// What a `Search` holds, as mathematical values.
pub struct SearchView {
    pub fields: Seq<Field>,
    pub extra_fields: bool,
    pub allow_regex: bool,
}

impl View for Search {
    type V = SearchView;

    open spec fn view(&self) -> SearchView {
        SearchView {
            fields: self.fields@,
            extra_fields: self.extra_fields,
            allow_regex: self.allow_regex,
        }
    }
}

/// The search that is in force where nothing else is configured.
pub open spec fn search_default() -> SearchView {
    SearchView {
        fields: seq![Field::Title, Field::Username, Field::Tags, Field::Notes, Field::Url],
        extra_fields: true,
        allow_regex: false,
    }
}

impl Clone for Search {
    fn clone(&self) -> (copy: Self)
        ensures
            copy@ == self@,
    {
        let mut fields: Vec<Field> = Vec::new();
        let mut i: usize = 0;
        while i < self.fields.len()
            invariant
                i <= self.fields.len(),
                fields@ == self.fields@.subrange(0, i as int),
            decreases self.fields.len() - i,
        {
            fields.push(self.fields[i]);
            i = i + 1;
            assert(fields@ =~= self.fields@.subrange(0, i as int));
        }
        assert(fields@ =~= self.fields@);
        Search { fields, extra_fields: self.extra_fields, allow_regex: self.allow_regex }
    }
}

impl Default for Search {
    fn default() -> (config: Self)
        ensures
            config@ == search_default(),
    {
        let mut fields: Vec<Field> = Vec::new();
        fields.push(Field::Title);
        fields.push(Field::Username);
        fields.push(Field::Tags);
        fields.push(Field::Notes);
        fields.push(Field::Url);
        assert(fields@ =~= seq![
            Field::Title,
            Field::Username,
            Field::Tags,
            Field::Notes,
            Field::Url,
        ]);
        Search { fields, extra_fields: true, allow_regex: false }
    }
}

} // verus!
