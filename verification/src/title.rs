//! Page titles: a namespace number and the title text within that namespace.
use vstd::prelude::*;
use vstd::string::*;
use crate::text::{
    lemma_replaced_absent, lemma_replaced_gone, lemma_trimmed_contains, lemma_trimmed_idempotent,
    replace_char, replaced, trim, trimmed,
};

verus! {

/// What a [`Title`] stands for: the namespace and the text, written with spaces.
pub struct TitleView {
    pub namespace_id: i64,
    pub title: Seq<char>,
}

/// The key of a page within one wiki: the namespace and the title text
/// written with underscores. Two pages of one wiki are the same page exactly
/// when their identities are equal.
pub struct PageIdentity {
    pub namespace_id: i64,
    pub title: Seq<char>,
}

/// Title text with spaces for underscores and no white space at the ends.
pub open spec fn spaced(text: Seq<char>) -> Seq<char> {
    trimmed(replaced(text, '_', ' '))
}

/// Title text without white space at the ends and with underscores for spaces.
pub open spec fn underscored(text: Seq<char>) -> Seq<char> {
    replaced(trimmed(text), ' ', '_')
}

/// Title text that has been written with spaces stays as it is when it is
/// written with spaces again.
pub proof fn lemma_spaced_idempotent(text: Seq<char>)
    ensures
        spaced(spaced(text)) == spaced(text),
{
    let with_spaces = replaced(text, '_', ' ');
    lemma_replaced_gone(text, '_', ' ');
    if trimmed(with_spaces).contains('_') {
        lemma_trimmed_contains(with_spaces, '_');
    }
    lemma_replaced_absent(trimmed(with_spaces), '_', ' ');
    lemma_trimmed_idempotent(with_spaces);
}

impl TitleView {
    /// The identity of the page that carries this title.
    pub open spec fn identity(self) -> PageIdentity {
        PageIdentity { namespace_id: self.namespace_id, title: underscored(self.title) }
    }
}

/// A page title without its namespace prefix, together with the namespace
/// number (negative for virtual namespaces). The text is kept with spaces.
#[derive(Debug, PartialEq, Eq)]
pub struct Title {
    title: String,
    namespace_id: i64,
}

impl View for Title {
    type V = TitleView;

    closed spec fn view(&self) -> TitleView {
        TitleView { namespace_id: self.namespace_id, title: self.title@ }
    }
}

/// A page identity as a value that can be compared at run time.
#[derive(Debug, PartialEq, Eq)]
pub struct PageKey {
    pub namespace_id: i64,
    pub title: String,
}

impl View for PageKey {
    type V = PageIdentity;

    open spec fn view(&self) -> PageIdentity {
        PageIdentity { namespace_id: self.namespace_id, title: self.title@ }
    }
}

impl PageKey {
    /// Whether two keys name the same page.
    pub fn same_as(&self, other: &PageKey) -> (r: bool)
        ensures
            r == (self@ == other@),
    {
        self.namespace_id == other.namespace_id && self.title == other.title
    }
}

impl Clone for Title {
    fn clone(&self) -> (r: Self)
        ensures
            r == *self,
    {
        proof {
            use_type_invariant(self);
        }
        Title { title: self.title.clone(), namespace_id: self.namespace_id }
    }
}

impl Title {
    #[verifier::type_invariant]
    spec fn well_formed(&self) -> bool {
        spaced(self.title@) == self.title@
    }

    /// What `Title::new` makes of a text and a namespace.
    pub open spec fn new_spec(title: Seq<char>, namespace_id: i64) -> TitleView {
        TitleView { namespace_id, title: spaced(title) }
    }

    /// A title from its text and namespace. Underscores in the text become
    /// spaces, white space at the ends is dropped.
    pub fn new(title: &str, namespace_id: i64) -> (r: Title)
        ensures
            r@ == Title::new_spec(title@, namespace_id),
    {
        let with_spaces = replace_char(title, '_', ' ');
        proof {
            lemma_spaced_idempotent(title@);
        }
        Title { title: trim(with_spaces.as_str()), namespace_id }
    }

    /// The namespace number.
    pub fn namespace_id(&self) -> (r: i64)
        ensures
            r == self@.namespace_id,
    {
        self.namespace_id
    }

    /// The title text, written with spaces; it is in the form that
    /// [`Title::new`] gives.
    pub fn pretty(&self) -> (r: &str)
        ensures
            r@ == self@.title,
            spaced(r@) == r@,
    {
        proof {
            use_type_invariant(self);
        }
        self.title.as_str()
    }

    /// The title text, written with underscores.
    pub fn with_underscores(&self) -> (r: String)
        ensures
            r@ == underscored(self@.title),
    {
        let cut = trim(self.title.as_str());
        replace_char(cut.as_str(), ' ', '_')
    }

    /// The identity of the page that carries this title.
    pub fn key(&self) -> (r: PageKey)
        ensures
            r@ == self@.identity(),
    {
        PageKey { namespace_id: self.namespace_id, title: self.with_underscores() }
    }
}

} // verus!
