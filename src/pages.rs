use vstd::prelude::*;
use crate::store::{StoredMessage, StoredModel, StoreError, MessageStore, error_text, lookup};

verus! {

/// What a human-readable endpoint shows.
#[derive(Debug)]
pub enum Page {
    /// The submission form.
    Form { title: String },
    /// A list of messages.
    List { title: String, messages: Vec<StoredMessage> },
    /// An error report.
    Error { title: String, error: String },
}

/// Model of a page.
pub enum PageModel {
    Form { title: Seq<char> },
    List { title: Seq<char>, messages: Seq<StoredModel> },
    Error { title: Seq<char>, error: Seq<char> },
}

impl View for Page {
    type V = PageModel;

    open spec fn view(&self) -> PageModel {
        match self {
            Page::Form { title } => PageModel::Form { title: title@ },
            Page::List { title, messages } => PageModel::List {
                title: title@,
                messages: messages@.map_values(|x: StoredMessage| x@),
            },
            Page::Error { title, error } => PageModel::Error { title: title@, error: error@ },
        }
    }
}

/// The page that reports `e`.
pub open spec fn error_page(e: StoreError) -> PageModel {
    PageModel::Error { title: "Error"@, error: error_text(e) }
}

/// Answer to a stored submission: where the collection lives and a short body.
#[derive(Debug)]
pub struct Created {
    pub location: String,
    pub body: String,
}

fn error_page_of(e: &StoreError) -> (r: Page)
    ensures
        r@ == error_page(*e),
{
    proof {
        reveal_strlit("Error");
    }
    Page::Error { title: String::from_str("Error"), error: e.to_string() }
}

/// The submission form page.
pub fn message_submit_form() -> (r: Page)
    ensures
        r@ == (PageModel::Form { title: "Submit message"@ }),
{
    Page::Form { title: String::from_str("Submit message") }
}

/// Answer to a submission, given the outcome of storing it.
pub fn message_submit(inserted: Result<i64, StoreError>) -> (r: Result<Created, StoreError>)
    ensures
        inserted is Ok ==> (r matches Ok(c) && c.location@ == "/messages"@ && c.body@
            == "success"@),
        forall|e: StoreError| inserted == Err::<i64, StoreError>(e) ==> r == Err::<
            Created,
            StoreError,
        >(e),
{
    match inserted {
        Ok(_) => Ok(Created {
            location: String::from_str("/messages"),
            body: String::from_str("success"),
        }),
        Err(e) => Err(e),
    }
}

/// The page listing all messages, or the error page when they could not be read.
pub fn list_messages(q: Result<Vec<StoredMessage>, StoreError>) -> (r: Page)
    ensures
        match q {
            Ok(v) => r@ == (PageModel::List {
                title: "Messages"@,
                messages: v@.map_values(|x: StoredMessage| x@),
            }),
            Err(e) => r@ == error_page(e),
        },
{
    match q {
        Ok(v) => {
            proof {
                reveal_strlit("Messages");
            }
            Page::List { title: String::from_str("Messages"), messages: v }
        },
        Err(e) => error_page_of(&e),
    }
}

/// The page showing one message, or the error page when it could not be read.
pub fn get_message(q: Result<StoredMessage, StoreError>) -> (r: Page)
    ensures
        match q {
            Ok(m) => r@ == (PageModel::List { title: "Message"@, messages: seq![m@] }),
            Err(e) => r@ == error_page(e),
        },
{
    match q {
        Ok(m) => {
            proof {
                reveal_strlit("Message");
            }
            let ghost g = m@;
            let mut v: Vec<StoredMessage> = Vec::new();
            v.push(m);
            let r = Page::List { title: String::from_str("Message"), messages: v };
            assert(v@.map_values(|x: StoredMessage| x@) =~= seq![g]);
            r
        },
        Err(e) => error_page_of(&e),
    }
}

impl MessageStore {
    /// The page for the message with id `id`; an error page when there is none.
    pub fn message_page(&self, id: i64) -> (r: Page)
        requires
            self.wf(),
        ensures
            match lookup(self@, id as int) {
                Some(row) => r@ == (PageModel::List { title: "Message"@, messages: seq![row] }),
                None => r@ == error_page(StoreError::NotFound),
            },
    {
        get_message(self.get_by_id(id))
    }
}

} // verus!
