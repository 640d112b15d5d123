//! The state of the reply form.

use vstd::prelude::*;

verus! {

/// A reply as it leaves the form: where it goes and what it says.
#[derive(Debug)]
pub struct Submission {
    /// The URL as it was typed.
    pub url: String,
    /// The name to post under; the form has no field for it.
    pub name: String,
    /// `sage` to keep the thread from rising, else empty.
    pub email: String,
    /// The comment as it was typed.
    pub comment: String,
}

/// The state of the reply form: the URL and the comment as typed, the sage
/// switch, and who is told when the comment changes.
pub struct PopoverViewModel<F> {
    url: String,
    comment: String,
    comment_observer: Option<F>,
    sage: bool,
}

/// The mail field that stands for a setting of the sage switch.
pub open spec fn email_of(sage: bool) -> Seq<char> {
    if sage {
        "sage"@
    } else {
        ""@
    }
}

/// The state of a checkbox that shows a setting of the sage switch: one when
/// it is on, zero when it is off.
pub open spec fn state_of(sage: bool) -> isize {
    if sage {
        1
    } else {
        0
    }
}

/// The setting of the sage switch that a checkbox in state `state` asks for:
/// on in state one, off in any other.
pub open spec fn sage_in(state: isize) -> bool {
    state == 1
}

/// A checkbox that shows a setting asks for that setting.
pub proof fn checkbox_shows_what_it_asks_for(sage: bool)
    ensures
        sage_in(state_of(sage)) == sage,
{
}

/// The state in which a checkbox shows a setting of the sage switch.
pub fn checkbox_state(sage: bool) -> (state: isize)
    ensures
        state == state_of(sage),
{
    if sage {
        1
    } else {
        0
    }
}

/// The setting of the sage switch that a checkbox in state `state` asks for.
pub fn checkbox_sage(state: isize) -> (sage: bool)
    ensures
        sage == sage_in(state),
{
    state == 1
}

impl<F: Fn(String)> PopoverViewModel<F> {
    /// The URL as typed.
    pub closed spec fn url(&self) -> Seq<char> {
        self.url@
    }

    /// The comment as typed.
    pub closed spec fn comment(&self) -> Seq<char> {
        self.comment@
    }

    /// The setting of the sage switch.
    pub closed spec fn sage(&self) -> bool {
        self.sage
    }

    /// Who is told when the comment changes, if anyone.
    pub closed spec fn observer(&self) -> Option<F> {
        self.comment_observer
    }

    /// Whether the observer, if there is one, can be told of any comment.
    pub open spec fn wf(&self) -> bool {
        match self.observer() {
            Some(f) => forall|text: String| f.requires((text,)),
            None => true,
        }
    }

    /// An empty form, with sage switched on and nobody listening.
    pub fn new() -> (r: Self)
        ensures
            r.url() == Seq::<char>::empty(),
            r.comment() == Seq::<char>::empty(),
            r.sage(),
            r.observer() is None,
            r.wf(),
    {
        PopoverViewModel {
            url: String::new(),
            comment: String::new(),
            comment_observer: None,
            sage: true,
        }
    }

    /// The setting of the sage switch.
    pub fn get_sage(&self) -> (r: bool)
        ensures
            r == self.sage(),
    {
        self.sage
    }

    /// Takes the URL as typed.
    pub fn set_url(&mut self, url: String)
        ensures
            final(self).url() == url@,
            final(self).comment() == old(self).comment(),
            final(self).sage() == old(self).sage(),
            final(self).observer() == old(self).observer(),
    {
        self.url = url;
    }

    /// Takes the comment as typed, and tells the observer of it.
    pub fn set_comment(&mut self, comment: String)
        requires
            old(self).wf(),
        ensures
            final(self).comment() == comment@,
            final(self).url() == old(self).url(),
            final(self).sage() == old(self).sage(),
            final(self).observer() == old(self).observer(),
            old(self).observer() matches Some(f) ==> f.ensures((comment,), ()),
    {
        self.comment = comment.clone();
        match &self.comment_observer {
            Some(observer) => {
                observer(comment);
            },
            None => {},
        }
    }

    /// Sets the sage switch.
    pub fn set_sage(&mut self, sage: bool)
        ensures
            final(self).sage() == sage,
            final(self).url() == old(self).url(),
            final(self).comment() == old(self).comment(),
            final(self).observer() == old(self).observer(),
    {
        self.sage = sage;
    }

    /// Names who is told when the comment changes, in place of anyone named
    /// before.
    pub fn subscribe_comment(&mut self, observer: F)
        requires
            forall|text: String| observer.requires((text,)),
        ensures
            final(self).observer() == Some(observer),
            final(self).wf(),
            final(self).url() == old(self).url(),
            final(self).comment() == old(self).comment(),
            final(self).sage() == old(self).sage(),
    {
        self.comment_observer = Some(observer);
    }

    /// Takes the reply out of the form: hands out what was typed, with the
    /// mail field that the sage switch stands for, and clears the comment,
    /// telling the observer so. URL and switch stay as they are.
    pub fn on_post_clicked(&mut self) -> (r: Submission)
        requires
            old(self).wf(),
        ensures
            r.url@ == old(self).url(),
            r.name@ == Seq::<char>::empty(),
            r.email@ == email_of(old(self).sage()),
            r.comment@ == old(self).comment(),
            final(self).comment() == Seq::<char>::empty(),
            final(self).url() == old(self).url(),
            final(self).sage() == old(self).sage(),
            final(self).observer() == old(self).observer(),
            old(self).observer() matches Some(f) ==> exists|cleared: String|
                cleared@ == Seq::<char>::empty() && #[trigger] f.ensures((cleared,), ()),
    {
        let url = self.url.clone();
        let comment = self.comment.clone();
        let email = if self.sage {
            String::from_str("sage")
        } else {
            String::from_str("")
        };
        self.set_comment(String::new());
        Submission { url, name: String::new(), email, comment }
    }
}

} // verus!
