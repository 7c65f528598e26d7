//! Selection configuration: which columns a build emits, whether wide-only
//! columns are shown, and how JSON values are formatted.
use vstd::prelude::*;

verus! {

/// The lower-case form of a text.
pub uninterp spec fn lower_of(s: Seq<char>) -> Seq<char>;

/// Relies on `str::to_lowercase`: the result depends on the characters alone.
#[verifier::external_body]
pub(crate) fn lowercase(s: &str) -> (r: String)
    ensures
        r@ == lower_of(s@),
{
    s.to_lowercase()
}

/// Whether `title` matches one of the requested titles, ignoring case.
pub open spec fn requested(fields: Seq<String>, title: Seq<char>) -> bool {
    exists|i: int| 0 <= i < fields.len() && lower_of(#[trigger] fields[i]@) == lower_of(title)
}

/// The field selection rule. A normal field is shown unless an explicit list
/// of titles leaves it out; a wide-only field is shown in wide mode when no
/// list is given, and otherwise only when the list names it.
pub open spec fn selects(fields: Seq<String>, wide: bool, title: Seq<char>, is_wide: bool) -> bool {
    if !is_wide {
        fields.len() == 0 || requested(fields, title)
    } else {
        (fields.len() == 0 && wide) || requested(fields, title)
    }
}

/// Options that steer a table build; implement it where `OutputConfig`
/// does not fit.
pub trait StructTableOptions {
    /// What `wide_mode` returns; a type verified here overrides this.
    open spec fn spec_wide_mode(&self) -> bool {
        false
    }

    /// What `pretty_mode` returns; a type verified here overrides this.
    open spec fn spec_pretty_mode(&self) -> bool {
        false
    }

    /// What `should_return_field` returns; a type verified here overrides
    /// this.
    open spec fn spec_should_return_field(&self, field: Seq<char>, is_wide_field: bool) -> bool {
        true
    }

    /// What `field_data_json_pointer` returns; a type verified here
    /// overrides this.
    open spec fn spec_field_data_json_pointer(&self, field: Seq<char>) -> Option<Seq<char>> {
        None
    }

    /// Whether to return fields marked as wide-only.
    fn wide_mode(&self) -> (r: bool)
        ensures
            r == self.spec_wide_mode(),
    ;

    /// Whether to serialize values in the pretty, indented form.
    fn pretty_mode(&self) -> (r: bool)
        ensures
            r == self.spec_pretty_mode(),
    ;

    /// Whether the field with this title should be returned.
    fn should_return_field(&self, field: &str, is_wide_field: bool) -> (r: bool)
        ensures
            r == self.spec_should_return_field(field@, is_wide_field),
    ;

    /// The JSON pointer (RFC 6901) used to extract the data of a field during
    /// a table build, if any.
    fn field_data_json_pointer(&self, field: &str) -> (r: Option<String>)
        ensures
            r is Some <==> self.spec_field_data_json_pointer(field@) is Some,
            r matches Some(p) ==> self.spec_field_data_json_pointer(field@) == Some(p@),
    ;
}

/// Output configuration: controls how a table is built for a structure.
#[derive(Debug)]
pub struct OutputConfig {
    /// Titles of the fields to return, compared ignoring case; empty means
    /// all. Read as a set: the order and repetition of the entries never
    /// change which fields are returned (`lemma_selection_ignores_order`).
    pub fields: Vec<String>,
    /// Wide mode: also return the fields marked wide-only.
    pub wide: bool,
    /// Pretty-print JSON values.
    pub pretty: bool,
}

impl Default for OutputConfig {
    fn default() -> (r: Self)
        ensures
            r.fields@.len() == 0,
            !r.wide,
            !r.pretty,
    {
        OutputConfig { fields: Vec::new(), wide: false, pretty: false }
    }
}

impl Clone for OutputConfig {
    fn clone(&self) -> (r: Self)
        ensures
            r.fields@.len() == self.fields@.len(),
            forall|i: int| 0 <= i < self.fields@.len() ==> #[trigger] r.fields@[i]@ == self.fields@[i]@,
            r.wide == self.wide,
            r.pretty == self.pretty,
    {
        let mut fields: Vec<String> = Vec::new();
        let mut i: usize = 0;
        while i < self.fields.len()
            invariant
                i <= self.fields@.len(),
                fields@.len() == i,
                forall|j: int| 0 <= j < i ==> #[trigger] fields@[j]@ == self.fields@[j]@,
            decreases self.fields@.len() - i,
        {
            fields.push(self.fields[i].clone());
            i = i + 1;
        }
        OutputConfig { fields, wide: self.wide, pretty: self.pretty }
    }
}

impl OutputConfig {
    /// Whether the field with this title should be returned.
    pub fn should_return_field(&self, field: &str, is_wide_field: bool) -> (r: bool)
        ensures
            r == selects(self.fields@, self.wide, field@, is_wide_field),
    {
        if self.fields.len() == 0 {
            !is_wide_field || self.wide
        } else {
            let wanted = lowercase(field);
            let mut i: usize = 0;
            let mut found = false;
            while i < self.fields.len()
                invariant
                    i <= self.fields@.len(),
                    wanted@ == lower_of(field@),
                    found <==> exists|j: int|
                        0 <= j < i && lower_of(#[trigger] self.fields@[j]@) == lower_of(field@),
                decreases self.fields@.len() - i,
            {
                let candidate = lowercase(self.fields[i].as_str());
                if candidate == wanted {
                    found = true;
                }
                i = i + 1;
            }
            found
        }
    }
}

impl StructTableOptions for OutputConfig {
    open spec fn spec_wide_mode(&self) -> bool {
        self.wide
    }

    open spec fn spec_pretty_mode(&self) -> bool {
        self.pretty
    }

    open spec fn spec_should_return_field(&self, field: Seq<char>, is_wide_field: bool) -> bool {
        selects(self.fields@, self.wide, field, is_wide_field)
    }

    /// An output configuration never narrows a value by a JSON pointer.
    open spec fn spec_field_data_json_pointer(&self, field: Seq<char>) -> Option<Seq<char>> {
        None
    }

    fn wide_mode(&self) -> (r: bool) {
        self.wide
    }

    fn pretty_mode(&self) -> (r: bool) {
        self.pretty
    }

    fn should_return_field(&self, field: &str, is_wide_field: bool) -> (r: bool) {
        OutputConfig::should_return_field(self, field, is_wide_field)
    }

    fn field_data_json_pointer(&self, field: &str) -> (r: Option<String>) {
        None
    }
}

/// Requesting a field by title always selects it, wide-only or not and
/// whatever the wide mode.
pub proof fn lemma_requested_field_selected(
    fields: Seq<String>,
    wide: bool,
    title: Seq<char>,
    is_wide: bool,
    i: int,
)
    requires
        0 <= i < fields.len(),
        lower_of(fields[i]@) == lower_of(title),
    ensures
        selects(fields, wide, title, is_wide),
{
}

/// The selection depends only on which titles are requested: two lists with
/// the same entries, in any order and with any repetition, select the same
/// fields.
pub proof fn lemma_selection_ignores_order(
    a: Seq<String>,
    b: Seq<String>,
    wide: bool,
    title: Seq<char>,
    is_wide: bool,
)
    requires
        a.to_set() == b.to_set(),
    ensures
        selects(a, wide, title, is_wide) == selects(b, wide, title, is_wide),
{
    assert(a.len() == 0 <==> b.len() == 0) by {
        if a.len() > 0 {
            assert(a.to_set().contains(a[0]));
            assert(b.to_set().contains(a[0]));
        }
        if b.len() > 0 {
            assert(b.to_set().contains(b[0]));
            assert(a.to_set().contains(b[0]));
        }
    }
    if requested(a, title) {
        let i = choose|i: int| 0 <= i < a.len() && lower_of(#[trigger] a[i]@) == lower_of(title);
        assert(a.to_set().contains(a[i]));
        assert(b.to_set().contains(a[i]));
        let j = choose|j: int| 0 <= j < b.len() && b[j] == a[i];
        assert(lower_of(b[j]@) == lower_of(title));
    }
    if requested(b, title) {
        let i = choose|i: int| 0 <= i < b.len() && lower_of(#[trigger] b[i]@) == lower_of(title);
        assert(b.to_set().contains(b[i]));
        assert(a.to_set().contains(b[i]));
        let j = choose|j: int| 0 <= j < a.len() && a[j] == b[i];
        assert(lower_of(a[j]@) == lower_of(title));
    }
}

} // verus!
