//! The notifications that a batch sends to its listener.

use crate::text::{decimal, decimal_digits};
use vstd::prelude::*;
use vstd::string::StringExecFns;

verus! {

/// The two named events of the listener.
#[derive(Clone, Copy, Debug, PartialEq, Eq, Structural)]
pub enum Channel {
    /// The event `progress`: what the batch is doing.
    Progress,
    /// The event `finish`: the batch has produced all its files.
    Finish,
}

impl Channel {
    /// The name of the event.
    pub open spec fn name_of(self) -> Seq<char> {
        match self {
            Channel::Progress => seq!['p', 'r', 'o', 'g', 'r', 'e', 's', 's'],
            Channel::Finish => seq!['f', 'i', 'n', 'i', 's', 'h'],
        }
    }

    /// The name under which the event is emitted.
    pub fn name(self) -> (name: &'static str)
        ensures
            name@ == self.name_of(),
    {
        proof {
            reveal_strlit("progress");
            reveal_strlit("finish");
        }
        let name = match self {
            Channel::Progress => "progress",
            Channel::Finish => "finish",
        };
        assert(name@ =~= self.name_of());
        name
    }
}

/// The mathematical model of a notification.
#[verifier::ext_equal]
pub struct NoticeView {
    pub channel: Channel,
    pub message: Seq<char>,
}

/// A notification: the event and its message. Delivery is best effort: a
/// notification that cannot be delivered is dropped.
#[derive(Debug)]
pub struct Notice {
    pub channel: Channel,
    pub message: String,
}

impl View for Notice {
    type V = NoticeView;

    open spec fn view(&self) -> NoticeView {
        NoticeView { channel: self.channel, message: self.message@ }
    }
}

/// The models of a list of notifications.
pub open spec fn notice_views(notices: Seq<Notice>) -> Seq<NoticeView> {
    Seq::new(notices.len(), |i: int| notices[i]@)
}

/// The words that open the message of a problem in progress.
pub open spec fn generating_words() -> Seq<char> {
    seq!['生', '成', '中', '.', '.', '.', ' ']
}

/// The message "generating": the words, the position of the problem counted
/// from zero, a slash and the number of problems.
pub open spec fn generating_message_of(index: u32, count: u32) -> Seq<char> {
    generating_words() + decimal_digits(index as nat) + seq!['/'] + decimal_digits(count as nat)
}

/// The message "generation complete".
pub open spec fn complete_message_of() -> Seq<char> {
    seq!['生', '成', '完', '了']
}

/// The message "loading the model".
pub open spec fn loading_message_of() -> Seq<char> {
    seq!['モ', 'デ', 'ル', 'を', 'ロ', 'ー', 'ド', '中', '.', '.', '.']
}

/// The message "cancelling".
pub open spec fn cancelling_message_of() -> Seq<char> {
    seq!['キ', 'ャ', 'ン', 'セ', 'ル', '中', '.', '.', '.']
}

/// The progress notification of the problem at position `index` of `count`.
pub open spec fn generating_notice_of(index: u32, count: u32) -> NoticeView {
    NoticeView { channel: Channel::Progress, message: generating_message_of(index, count) }
}

/// The progress notification that the model is being loaded.
pub open spec fn loading_notice_of() -> NoticeView {
    NoticeView { channel: Channel::Progress, message: loading_message_of() }
}

/// The progress notification that a cancellation was asked for.
pub open spec fn cancelling_notice_of() -> NoticeView {
    NoticeView { channel: Channel::Progress, message: cancelling_message_of() }
}

/// The notification, on the given event, that the generation is complete.
pub open spec fn complete_notice_of(channel: Channel) -> NoticeView {
    NoticeView { channel, message: complete_message_of() }
}

/// Builds the progress notification of the problem at position `index`.
pub fn generating_notice(index: u32, count: u32) -> (notice: Notice)
    ensures
        notice@ == generating_notice_of(index, count),
{
    proof {
        reveal_strlit("生成中... ");
        reveal_strlit("/");
    }
    let mut message = String::from_str("生成中... ");
    message.append(decimal(index).as_str());
    message.append("/");
    message.append(decimal(count).as_str());
    assert(message@ =~= generating_message_of(index, count));
    Notice { channel: Channel::Progress, message }
}

/// Builds the progress notification that the model is being loaded.
pub fn loading_notice() -> (notice: Notice)
    ensures
        notice@ == loading_notice_of(),
{
    proof {
        reveal_strlit("モデルをロード中...");
    }
    let message = String::from_str("モデルをロード中...");
    assert(message@ =~= loading_message_of());
    Notice { channel: Channel::Progress, message }
}

/// Builds the progress notification that a cancellation was asked for.
pub fn cancelling_notice() -> (notice: Notice)
    ensures
        notice@ == cancelling_notice_of(),
{
    proof {
        reveal_strlit("キャンセル中...");
    }
    let message = String::from_str("キャンセル中...");
    assert(message@ =~= cancelling_message_of());
    Notice { channel: Channel::Progress, message }
}

/// Builds the notification that the generation is complete.
pub fn complete_notice(channel: Channel) -> (notice: Notice)
    ensures
        notice@ == complete_notice_of(channel),
{
    proof {
        reveal_strlit("生成完了");
    }
    let message = String::from_str("生成完了");
    assert(message@ =~= complete_message_of());
    Notice { channel, message }
}

} // verus!
