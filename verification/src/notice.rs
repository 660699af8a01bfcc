//! The messages that admins receive about their namespace.

use crate::protocol::{DBItem, RecordView};
use crate::text::{same_text, strip_quotes, without_quotes};
use crate::tier::Tier;
use vstd::prelude::*;
use vstd::string::StringExecFns;

verus! {

/// How every message to an admin begins.
pub const OPENING: &'static str =
    "Hello! You are receiving this message because your OKD project, ";

/// What follows the project's name in a reminder.
pub const NUDGE_MIDDLE: &'static str = ", has gone more than 12 weeks without an update (";

/// How a reminder ends.
pub const NUDGE_CLOSING: &'static str =
    "). Please consider updating with a build, deployment, or asking an RTP to put the project on ShelfLife's ignore. Thanks!.";

/// What follows the project's name in the news of a spin-down.
pub const SPIN_DOWN_MIDDLE: &'static str =
    ", has now gone more than 16 weeks without an update (";

/// How the news of a spin-down ends.
pub const SPIN_DOWN_CLOSING: &'static str =
    "). All applications on the project have now been reduced to 0 pods. If you would like to revive it, do so, and its ShelfLife will reset. Otherwise, it will be deleted in another 8 weeks.";

/// What follows the project's name in the news of a deletion.
pub const ARCHIVE_MIDDLE: &'static str =
    ", has now gone more than 24 weeks without an update (";

/// How the news of a deletion ends.
pub const ARCHIVE_CLOSING: &'static str =
    "). It has been deleted from OKD. You can find a backup of the project in your homedir at <link>. Thank you for using ShelfLife, try not to let your pods get too moldy next time.";

/// Subject of a reminder, before the project's name.
pub const NUDGE_SUBJECT: &'static str = "Old OKD project: ";

/// Subject of the news of a spin-down.
pub const SPIN_DOWN_SUBJECT: &'static str = "Your project's resources have been revoked.";

/// Subject of the news of a deletion.
pub const ARCHIVE_SUBJECT: &'static str = "Hi, I nuked your project :)";

/// The account that is written to only where that is asked for.
pub const ROOT: &'static str = "root";

/// One message on its way to one admin.
#[derive(Debug, Clone, PartialEq, Eq)]
pub struct Mail {
    /// Address of the recipient.
    pub to: String,
    /// Name of the recipient.
    pub name: String,
    /// Address of the sender.
    pub from: String,
    pub subject: String,
    pub body: String,
}

/// What a message holds, as sequences of characters.
pub struct MailView {
    pub to: Seq<char>,
    pub name: Seq<char>,
    pub from: Seq<char>,
    pub subject: Seq<char>,
    pub body: Seq<char>,
}

impl View for Mail {
    type V = MailView;

    open spec fn view(&self) -> MailView {
        MailView {
            to: self.to@,
            name: self.name@,
            from: self.from@,
            subject: self.subject@,
            body: self.body@,
        }
    }
}

impl Mail {
    /// A second copy of the message.
    pub fn copy(&self) -> (copy: Mail)
        ensures
            copy@ == self@,
    {
        Mail {
            to: self.to.clone(),
            name: self.name.clone(),
            from: self.from.clone(),
            subject: self.subject.clone(),
            body: self.body.clone(),
        }
    }
}

/// The messages of a list.
pub open spec fn mail_views(mails: Seq<Mail>) -> Seq<MailView> {
    mails.map_values(|m: Mail| m@)
}

/// The sender and the recipients' domain, and who may be written to.
#[derive(Debug, Clone, PartialEq, Eq)]
pub struct Postbox {
    /// Address that messages are sent from.
    pub address: String,
    /// Domain under which every admin has a mailbox.
    pub domain: String,
    /// Whether admins are written to at all.
    pub send_mail: bool,
    /// Whether the account `root` is written to as well.
    pub notify_root: bool,
}

/// What a postbox holds, as sequences of characters.
pub struct PostboxView {
    pub address: Seq<char>,
    pub domain: Seq<char>,
    pub send_mail: bool,
    pub notify_root: bool,
}

impl View for Postbox {
    type V = PostboxView;

    open spec fn view(&self) -> PostboxView {
        PostboxView {
            address: self.address@,
            domain: self.domain@,
            send_mail: self.send_mail,
            notify_root: self.notify_root,
        }
    }
}

/// The subject of the message that a tier sends about a project. A fresh
/// project has none.
pub open spec fn subject_of(tier: Tier, project: Seq<char>) -> Seq<char> {
    match tier {
        Tier::Fresh => Seq::empty(),
        Tier::Nudge => NUDGE_SUBJECT@ + project,
        Tier::SpinDown => SPIN_DOWN_SUBJECT@,
        Tier::Archive => ARCHIVE_SUBJECT@,
    }
}

/// The body of the message that a tier sends about a project, naming the
/// project and its last update. A fresh project has none.
pub open spec fn body_of(tier: Tier, project: Seq<char>, last_update: Seq<char>) -> Seq<char> {
    match tier {
        Tier::Fresh => Seq::empty(),
        Tier::Nudge => OPENING@ + project + NUDGE_MIDDLE@ + last_update + NUDGE_CLOSING@,
        Tier::SpinDown => OPENING@ + project + SPIN_DOWN_MIDDLE@ + last_update
            + SPIN_DOWN_CLOSING@,
        Tier::Archive => OPENING@ + project + ARCHIVE_MIDDLE@ + last_update + ARCHIVE_CLOSING@,
    }
}

/// The address of an account under a domain.
pub open spec fn mailbox(account: Seq<char>, domain: Seq<char>) -> Seq<char> {
    account + "@"@ + domain
}

/// Whether an admin is written to: every admin but `root`, and `root` too
/// where that is asked for. The name counts without its quotation marks.
pub open spec fn is_written_to(admin: Seq<char>, notify_root: bool) -> bool {
    notify_root || without_quotes(admin) != ROOT@
}

/// The message that a tier sends to one admin of a record.
pub open spec fn mail_to(
    admin: Seq<char>,
    tier: Tier,
    record: RecordView,
    post: PostboxView,
) -> MailView {
    MailView {
        to: mailbox(without_quotes(admin), post.domain),
        name: without_quotes(admin),
        from: post.address,
        subject: subject_of(tier, record.name),
        body: body_of(tier, record.name, record.last_update),
    }
}

/// The messages that a tier sends about a record: one for each admin who
/// is written to, in the order of the admins.
pub open spec fn mails_about(
    admins: Seq<Seq<char>>,
    tier: Tier,
    record: RecordView,
    post: PostboxView,
) -> Seq<MailView> {
    admins.filter(|a: Seq<char>| is_written_to(a, post.notify_root)).map_values(
        |a: Seq<char>| mail_to(a, tier, record, post),
    )
}

/// Writes [`subject_of`].
pub fn subject(tier: Tier, project: &str) -> (text: String)
    ensures
        text@ == subject_of(tier, project@),
{
    match tier {
        Tier::Fresh => String::new(),
        Tier::Nudge => {
            let mut text = String::from_str(NUDGE_SUBJECT);
            text.append(project);
            text
        },
        Tier::SpinDown => String::from_str(SPIN_DOWN_SUBJECT),
        Tier::Archive => String::from_str(ARCHIVE_SUBJECT),
    }
}

/// Writes [`body_of`].
pub fn body(tier: Tier, project: &str, last_update: &str) -> (text: String)
    ensures
        text@ == body_of(tier, project@, last_update@),
{
    let (middle, closing) = match tier {
        Tier::Fresh => {
            return String::new();
        },
        Tier::Nudge => (NUDGE_MIDDLE, NUDGE_CLOSING),
        Tier::SpinDown => (SPIN_DOWN_MIDDLE, SPIN_DOWN_CLOSING),
        Tier::Archive => (ARCHIVE_MIDDLE, ARCHIVE_CLOSING),
    };
    let mut text = String::from_str(OPENING);
    text.append(project);
    text.append(middle);
    text.append(last_update);
    text.append(closing);
    text
}

/// Writes the message that a tier sends to one admin of a record.
pub fn compose(admin: &str, tier: Tier, record: &DBItem, post: &Postbox) -> (mail: Mail)
    ensures
        mail@ == mail_to(admin@, tier, record@, post@),
{
    let name = strip_quotes(admin);
    let mut to = name.clone();
    to.append("@");
    to.append(post.domain.as_str());
    Mail {
        to,
        name,
        from: post.address.clone(),
        subject: subject(tier, record.name.as_str()),
        body: body(tier, record.name.as_str(), record.last_update.as_str()),
    }
}

/// Writes the messages that a tier sends about a record, one for each
/// admin who is written to. Whether mail is sent at all is not asked here.
pub fn notifications(record: &DBItem, tier: Tier, post: &Postbox) -> (mails: Vec<Mail>)
    ensures
        mail_views(mails@) == mails_about(record@.admins, tier, record@, post@),
{
    let mut mails: Vec<Mail> = Vec::new();
    let mut i: usize = 0;
    let ghost admins = record@.admins;
    proof {
        reveal(Seq::filter);
        assert(admins.take(0) =~= Seq::<Seq<char>>::empty());
        assert(mail_views(mails@) =~= mails_about(admins.take(0), tier, record@, post@));
    }
    while i < record.admins.len()
        invariant
            i <= record.admins@.len(),
            admins == record@.admins,
            admins.len() == record.admins@.len(),
            mail_views(mails@) == mails_about(admins.take(i as int), tier, record@, post@),
        decreases record.admins@.len() - i,
    {
        let admin = record.admins[i].as_str();
        let name = strip_quotes(admin);
        let ghost before = mails@;
        proof {
            reveal(Seq::filter);
            assert(admins.take(i + 1).drop_last() =~= admins.take(i as int));
            assert(admins.take(i + 1).last() == admin@);
        }
        if post.notify_root || !same_text(name.as_str(), ROOT) {
            let mail = compose(admin, tier, record, post);
            mails.push(mail);
            assert(mail_views(mails@) =~= mail_views(before).push(mail@));
            assert(mail_views(mails@) =~= mails_about(
                admins.take(i + 1),
                tier,
                record@,
                post@,
            ));
        }
        i = i + 1;
    }
    assert(admins.take(i as int) =~= admins);
    mails
}

} // verus!
