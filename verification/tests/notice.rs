use yish::notice::{
    cancelling_notice, complete_notice, generating_notice, loading_notice, Channel,
};

#[test]
fn event_names() {
    assert_eq!(Channel::Progress.name(), "progress");
    assert_eq!(Channel::Finish.name(), "finish");
}

#[test]
fn generating_message_counts_from_zero() {
    let notice = generating_notice(0, 3);
    assert_eq!(notice.channel, Channel::Progress);
    assert_eq!(notice.message, "生成中... 0/3");
    assert_eq!(generating_notice(12, 100).message, "生成中... 12/100");
    assert_eq!(generating_notice(u32::MAX, u32::MAX).message, "生成中... 4294967295/4294967295");
}

#[test]
fn loading_message() {
    let notice = loading_notice();
    assert_eq!(notice.channel, Channel::Progress);
    assert_eq!(notice.message, "モデルをロード中...");
}

#[test]
fn cancelling_message() {
    let notice = cancelling_notice();
    assert_eq!(notice.channel, Channel::Progress);
    assert_eq!(notice.message, "キャンセル中...");
}

#[test]
fn complete_message_on_both_events() {
    let progress = complete_notice(Channel::Progress);
    let finish = complete_notice(Channel::Finish);
    assert_eq!(progress.channel, Channel::Progress);
    assert_eq!(finish.channel, Channel::Finish);
    assert_eq!(progress.message, "生成完了");
    assert_eq!(finish.message, "生成完了");
}
