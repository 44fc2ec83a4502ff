//! A notification channel for tests: delivery always succeeds, and every
//! message is recorded so a test can inspect exactly what left the system.

use vstd::prelude::*;

use crate::data_stores::EmailClient;
use crate::email::Email;

verus! {

/// The views of a recorded message log.
pub open spec fn sent_view(s: Seq<(Email, String, String)>) -> Seq<
    (Seq<char>, Seq<char>, Seq<char>),
> {
    s.map_values(|t: (Email, String, String)| (t.0@, t.1@, t.2@))
}

/// The recording in-memory notification channel.
pub struct MockEmailClient {
    sent: Vec<(Email, String, String)>,
}

impl MockEmailClient {
    /// The recorded messages, oldest first.
    pub fn messages(&self) -> (r: &Vec<(Email, String, String)>)
        ensures
            sent_view(r@) == self.sent(),
    {
        &self.sent
    }
}

impl Default for MockEmailClient {
    /// A channel with an empty log.
    fn default() -> (r: Self)
        ensures
            r.sent() == Seq::<(Seq<char>, Seq<char>, Seq<char>)>::empty(),
    {
        let r = MockEmailClient { sent: Vec::new() };
        proof {
            assert(sent_view(r.sent@) =~= Seq::<(Seq<char>, Seq<char>, Seq<char>)>::empty());
        }
        r
    }
}

impl EmailClient for MockEmailClient {
    closed spec fn sent(&self) -> Seq<(Seq<char>, Seq<char>, Seq<char>)> {
        sent_view(self.sent@)
    }

    fn send_email(&mut self, recipient: &Email, subject: &str, content: &str) -> (r: Result<
        (),
        String,
    >) {
        let entry = (recipient.clone(), String::from_str(subject), String::from_str(content));
        self.sent.push(entry);
        proof {
            assert(sent_view(self.sent@) =~= sent_view(old(self).sent@).push(
                (recipient@, subject@, content@),
            ));
        }
        Ok(())
    }
}

} // verus!
