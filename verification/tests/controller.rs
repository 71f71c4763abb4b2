use reminder_bot::bot::BotError;
use reminder_bot::config::{Commands, Messages};
use reminder_bot::controller::action::{
    Action, AddReminder, ExecutionError, ListReminders, RemoveReminder, Reply,
};
use reminder_bot::controller::{
    misunderstanding, reminder_done, run_notifications, Notifications, Outcome, Step,
    NOTIFICATOR_INTERVAL,
};
use reminder_bot::db::models::reminders::Reminder;
use reminder_bot::db::types::{ChatId, DueTimestamp, Recurrence, RecurrenceUnit, MAX_YEAR};
use reminder_bot::db::{Answer, Error as DbError, Request};

fn at(year: i32, month: u32, day: u32, hour: u32, minute: u32) -> DueTimestamp {
    DueTimestamp::from_ymd_hms(year, month, day, hour, minute, 0).expect("no such moment")
}

fn commands() -> Commands {
    Commands { remove_command: "cancela".into(), list_command: "chora".into() }
}

fn messages() -> Messages {
    Messages {
        added_messages: vec!["added".into()],
        removed_messages: vec!["removed".into()],
        not_found_messages: vec!["not found".into()],
        empty_messages: vec!["nothing".into()],
        list_header_messages: vec!["your reminders:".into()],
        misunderstanding_messages: vec!["what?".into()],
    }
}

fn broken(message: &str) -> DbError {
    DbError { message: message.into() }
}

fn offline(message: &str) -> BotError {
    BotError { message: message.into() }
}

/// A store in memory: reminders in the order in which they were added.
struct Store {
    reminders: Vec<Reminder>,
    next_id: i32,
}

impl Store {
    fn new() -> Store {
        Store { reminders: Vec::new(), next_id: 1 }
    }

    fn past_due(&self, now: DueTimestamp) -> Vec<Reminder> {
        self.reminders.iter().filter(|r| r.due.is_before(&now)).cloned().collect()
    }

    fn ask(&mut self, request: Request) -> Answer {
        match request {
            Request::NewReminder(new) => {
                self.reminders.push(Reminder {
                    id: self.next_id,
                    due: new.due,
                    recurrence: new.recurrence,
                    chat: new.chat,
                    message: new.message.into(),
                });
                self.next_id += 1;
                Answer::Stored
            }
            Request::ChatReminders { chat_id } => {
                Answer::Reminders(self.reminders.iter().filter(|r| r.chat == chat_id).cloned().collect())
            }
            Request::DeleteChatReminder { reminder_id, chat_id } => {
                let before = self.reminders.len();
                self.reminders.retain(|r| !(r.id == reminder_id && r.chat == chat_id));
                Answer::Found(self.reminders.len() < before)
            }
            Request::RecurReminder { reminder_id, due } => {
                let mut found = false;
                for reminder in self.reminders.iter_mut().filter(|r| r.id == reminder_id) {
                    reminder.due = due;
                    found = true;
                }
                Answer::Found(found)
            }
            Request::DeleteReminder { reminder_id } => {
                let before = self.reminders.len();
                self.reminders.retain(|r| r.id != reminder_id);
                Answer::Found(self.reminders.len() < before)
            }
        }
    }
}

fn say(store: &mut Store, chat: i64, text: &str) -> Reply {
    let action = Action::parse(&commands(), ChatId(chat), text).expect("parse failed");
    let answer = store.ask(action.request());
    action.execute(Ok(answer), &messages()).expect("execution failed")
}

/// Runs one round against the store, everything being sent; returns what was sent.
fn tick(store: &mut Store, now: DueTimestamp) -> Vec<(ChatId, String)> {
    let mut round = run_notifications(Ok(store.past_due(now))).expect("no round");
    let mut sent = Vec::new();
    loop {
        let outcome = match round.next() {
            Step::Send { chat_id, message } => {
                sent.push((chat_id, message.to_string()));
                Outcome::Sent(Ok(()))
            }
            Step::Store(request) => match store.ask(request) {
                Answer::Found(found) => Outcome::Stored(Ok(found)),
                other => panic!("unexpected answer: {:?}", other),
            },
            Step::Done => break,
        };
        round.record(outcome);
    }
    assert_eq!(round.finish(), Ok(()));
    sent
}

#[test]
fn interval_is_five_minutes() {
    assert_eq!(NOTIFICATOR_INTERVAL, 300);
}

#[test]
fn adding_asks_the_store_and_confirms() {
    let mut store = Store::new();
    let reply = say(&mut store, 1, "2020-02-03 23:59 +2w hey ho");
    assert_eq!(reply, Reply { chat_id: ChatId(1), text: "added\n2020-02-03 23:59 +2w: hey ho".into() });
    assert_eq!(
        store.reminders,
        vec![Reminder {
            id: 1,
            due: at(2020, 2, 3, 23, 59),
            recurrence: Some(Recurrence { amount: 2, unit: RecurrenceUnit::Weeks }),
            chat: ChatId(1),
            message: "hey ho".into()
        }]
    );
    let reply = say(&mut store, 1, "2021-01-01 happy new year");
    assert_eq!(reply.text, "added\n2021-01-01 00:00: happy new year");
}

#[test]
fn adding_hands_on_the_failure_of_the_store() {
    let add = AddReminder { due: at(2020, 2, 3, 0, 0), recurrence: None, message: "hey".into(), chat_id: ChatId(1) };
    assert_eq!(add.execute(Err(broken("disk full")), &messages()), Err(ExecutionError::Db(broken("disk full"))));
    assert_eq!(
        Action::AddReminder(add).execute(Err(broken("disk full")), &messages()),
        Err(ExecutionError::Db(broken("disk full")))
    );
}

#[test]
fn confirmation_is_phrase_and_summary() {
    let add = AddReminder {
        due: at(2020, 2, 3, 8, 5),
        recurrence: Some(Recurrence { amount: 1, unit: RecurrenceUnit::Days }),
        message: "stand up".into(),
        chat_id: ChatId(1),
    };
    assert_eq!(add.confirmation("ok!"), "ok!\n2020-02-03 08:05 +1d: stand up");
    let new = add.reminder();
    assert_eq!((new.due, new.recurrence, new.chat, new.message), (add.due, add.recurrence, ChatId(1), "stand up"));
}

#[test]
fn listing_is_in_the_order_of_the_store() {
    let mut store = Store::new();
    assert_eq!(say(&mut store, 1, "chora"), Reply { chat_id: ChatId(1), text: "nothing".into() });
    say(&mut store, 1, "2020-03-01 10:00 later");
    say(&mut store, 2, "2020-01-15 other chat");
    say(&mut store, 1, "2020-01-01 +1y sooner");
    assert_eq!(
        say(&mut store, 1, "chora").text,
        "your reminders:\n(1) 2020-03-01 10:00: later\n(3) 2020-01-01 00:00 +1y: sooner\n"
    );
    assert_eq!(say(&mut store, 2, "chora").text, "your reminders:\n(2) 2020-01-15 00:00: other chat\n");
    assert_eq!(say(&mut store, 3, "chora").text, "nothing");
}

#[test]
fn listing_text_of_given_reminders() {
    let reminders = vec![
        Reminder { id: 7, due: at(2020, 2, 3, 0, 0), recurrence: None, chat: ChatId(1), message: "a".into() },
        Reminder { id: 9, due: at(2020, 2, 4, 1, 2), recurrence: None, chat: ChatId(1), message: "b".into() },
    ];
    assert_eq!(
        ListReminders::listing("head", &reminders),
        "head\n(7) 2020-02-03 00:00: a\n(9) 2020-02-04 01:02: b\n"
    );
    assert_eq!(ListReminders::listing("head", &Vec::new()), "head\n");
}

#[test]
fn listing_hands_on_the_failure_of_the_store() {
    let list = ListReminders { chat_id: ChatId(1) };
    assert_eq!(list.execute(Err(broken("locked")), &messages()), Err(ExecutionError::Db(broken("locked"))));
}

#[test]
fn removing_is_confined_to_the_chat() {
    let mut store = Store::new();
    say(&mut store, 1, "2020-03-01 mine");
    say(&mut store, 2, "2020-03-01 theirs");
    assert_eq!(say(&mut store, 1, "cancela 2"), Reply { chat_id: ChatId(1), text: "not found".into() });
    assert_eq!(store.reminders.len(), 2);
    assert_eq!(say(&mut store, 1, "cancela 1"), Reply { chat_id: ChatId(1), text: "removed".into() });
    assert_eq!(store.reminders.len(), 1);
    assert_eq!(say(&mut store, 1, "cancela 1").text, "not found");
    assert_eq!(say(&mut store, 1, "cancela 77").text, "not found");
}

#[test]
fn removing_replies_by_what_the_store_found() {
    let remove = RemoveReminder { reminder_id: 4, chat_id: ChatId(8) };
    assert_eq!(remove.execute(Ok(true), &messages()), Ok(Reply { chat_id: ChatId(8), text: "removed".into() }));
    assert_eq!(remove.execute(Ok(false), &messages()), Ok(Reply { chat_id: ChatId(8), text: "not found".into() }));
    assert_eq!(remove.execute(Err(broken("gone")), &messages()), Err(ExecutionError::Db(broken("gone"))));
    assert_eq!(
        Action::RemoveReminder(remove).request(),
        Request::DeleteChatReminder { reminder_id: 4, chat_id: ChatId(8) }
    );
    assert_eq!(
        Action::ListReminders(ListReminders { chat_id: ChatId(8) }).request(),
        Request::ChatReminders { chat_id: ChatId(8) }
    );
}

#[test]
fn repeated_list_and_remove_reply_the_same() {
    let mut store = Store::new();
    say(&mut store, 1, "2020-03-01 10:00 +1d daily");
    say(&mut store, 1, "2020-03-02 once");
    let first = say(&mut store, 1, "chora");
    let again = say(&mut store, 1, "chora");
    assert_eq!(first, again);

    let snapshot = store.reminders.clone();
    let first = say(&mut store, 1, "cancela 2");
    store.reminders = snapshot.clone();
    let again = say(&mut store, 1, "cancela 2");
    assert_eq!(first, again);
    store.reminders = snapshot;
    assert_eq!(say(&mut store, 1, "cancela 5"), say(&mut store, 1, "cancela 5"));
}

#[test]
fn replies_are_picked_from_the_pools() {
    let pools = Messages {
        added_messages: vec!["a1".into(), "a2".into(), "a3".into()],
        removed_messages: vec!["r1".into(), "r2".into()],
        not_found_messages: vec!["n1".into(), "n2".into()],
        empty_messages: vec!["e1".into(), "e2".into()],
        list_header_messages: vec!["h1".into(), "h2".into()],
        misunderstanding_messages: vec!["m1".into(), "m2".into()],
    };
    let remove = RemoveReminder { reminder_id: 4, chat_id: ChatId(8) };
    let list = ListReminders { chat_id: ChatId(8) };
    let add = AddReminder { due: at(2020, 1, 1, 0, 0), recurrence: None, message: "x".into(), chat_id: ChatId(8) };
    for _ in 0..50 {
        assert!(["r1", "r2"].contains(&remove.execute(Ok(true), &pools).unwrap().text.as_str()));
        assert!(["n1", "n2"].contains(&remove.execute(Ok(false), &pools).unwrap().text.as_str()));
        assert!(["e1", "e2"].contains(&list.execute(Ok(Vec::new()), &pools).unwrap().text.as_str()));
        assert!(["m1", "m2"].contains(&misunderstanding(ChatId(8), &pools).text.as_str()));
        let added = add.execute(Ok(()), &pools).unwrap().text;
        assert!(["a1", "a2", "a3"].iter().any(|p| added == format!("{}\n2020-01-01 00:00: x", p)));
        assert!(["a1", "a2", "a3"].contains(&pools.added_message()));
        assert!(["h1", "h2"].contains(&pools.list_header_message()));
    }
}

#[test]
fn text_that_is_no_command_is_misunderstood() {
    assert!(Action::parse(&commands(), ChatId(1), "good morning").is_err());
    assert_eq!(misunderstanding(ChatId(1), &messages()), Reply { chat_id: ChatId(1), text: "what?".into() });
}

#[test]
fn failure_to_send_is_a_failure_of_the_bot() {
    assert_eq!(ExecutionError::after_send(Ok(())), Ok(()));
    assert_eq!(ExecutionError::after_send(Err(offline("timeout"))), Err(ExecutionError::Bot(offline("timeout"))));
    assert_eq!(ExecutionError::Bot(offline("timeout")).render(), "bot error: timeout");
    assert_eq!(ExecutionError::Db(broken("locked")).render(), "database error: locked");
}

#[test]
fn recurring_reminder_is_delivered_and_moved_by_a_day() {
    let mut store = Store::new();
    say(&mut store, 1, "2020-02-28 09:00 +1d take a walk");
    let now = at(2020, 2, 28, 9, 1);

    assert_eq!(tick(&mut store, now), vec![(ChatId(1), "take a walk".to_string())]);
    assert_eq!(store.reminders.len(), 1);
    assert_eq!(store.reminders[0].id, 1);
    assert_eq!(store.reminders[0].due, at(2020, 2, 29, 9, 0));
    assert_eq!(store.past_due(now), Vec::new());
    assert_eq!(tick(&mut store, now), Vec::new());

    assert_eq!(tick(&mut store, at(2020, 2, 29, 9, 5)), vec![(ChatId(1), "take a walk".to_string())]);
    assert_eq!(store.reminders[0].due, at(2020, 3, 1, 9, 0));
}

#[test]
fn single_reminder_is_delivered_and_dropped() {
    let mut store = Store::new();
    say(&mut store, 4, "2020-02-28 09:00 call home");
    say(&mut store, 4, "2030-01-01 far away");
    let now = at(2020, 2, 28, 9, 1);

    assert_eq!(tick(&mut store, now), vec![(ChatId(4), "call home".to_string())]);
    assert_eq!(store.past_due(now), Vec::new());
    assert_eq!(store.reminders.len(), 1);
    assert_eq!(store.reminders[0].message, "far away");
    assert_eq!(tick(&mut store, now), Vec::new());
}

#[test]
fn reminder_due_now_is_not_yet_past_due() {
    let mut store = Store::new();
    say(&mut store, 4, "2020-02-28 09:00 call home");
    assert_eq!(tick(&mut store, at(2020, 2, 28, 9, 0)), Vec::new());
    assert_eq!(store.reminders.len(), 1);
}

fn due_list() -> Vec<Reminder> {
    vec![
        Reminder { id: 1, due: at(2020, 1, 1, 0, 0), recurrence: None, chat: ChatId(1), message: "one".into() },
        Reminder {
            id: 2,
            due: at(2020, 1, 31, 12, 0),
            recurrence: Some(Recurrence { amount: 1, unit: RecurrenceUnit::Months }),
            chat: ChatId(2),
            message: "two".into(),
        },
        Reminder { id: 3, due: at(2020, 1, 3, 0, 0), recurrence: None, chat: ChatId(3), message: "three".into() },
    ]
}

fn finish(round: Notifications) -> Result<(), Vec<ExecutionError>> {
    round.finish()
}

#[test]
fn round_goes_through_reminders_in_order() {
    let mut round = run_notifications(Ok(due_list())).unwrap();
    assert_eq!(round.next(), Step::Send { chat_id: ChatId(1), message: "one" });
    round.record(Outcome::Sent(Ok(())));
    assert_eq!(round.next(), Step::Store(Request::DeleteReminder { reminder_id: 1 }));
    round.record(Outcome::Stored(Ok(true)));
    assert_eq!(round.next(), Step::Send { chat_id: ChatId(2), message: "two" });
    round.record(Outcome::Sent(Ok(())));
    assert_eq!(
        round.next(),
        Step::Store(Request::RecurReminder { reminder_id: 2, due: at(2020, 2, 29, 12, 0) })
    );
    round.record(Outcome::Stored(Ok(true)));
    assert_eq!(round.next(), Step::Send { chat_id: ChatId(3), message: "three" });
    round.record(Outcome::Sent(Ok(())));
    assert_eq!(round.next(), Step::Store(Request::DeleteReminder { reminder_id: 3 }));
    round.record(Outcome::Stored(Ok(false)));
    assert_eq!(round.next(), Step::Done);
    assert_eq!(finish(round), Ok(()));
}

#[test]
fn failure_to_send_leaves_the_store_alone() {
    let mut round = run_notifications(Ok(due_list())).unwrap();
    assert_eq!(round.next(), Step::Send { chat_id: ChatId(1), message: "one" });
    round.record(Outcome::Sent(Err(offline("no route"))));
    assert_eq!(round.next(), Step::Send { chat_id: ChatId(2), message: "two" });
    round.record(Outcome::Sent(Ok(())));
    assert!(matches!(round.next(), Step::Store(Request::RecurReminder { reminder_id: 2, .. })));
    round.record(Outcome::Stored(Err(broken("locked"))));
    assert_eq!(round.next(), Step::Send { chat_id: ChatId(3), message: "three" });
    round.record(Outcome::Sent(Err(offline("blocked"))));
    assert_eq!(round.next(), Step::Done);
    assert_eq!(
        finish(round),
        Err(vec![
            ExecutionError::Bot(offline("no route")),
            ExecutionError::Db(broken("locked")),
            ExecutionError::Bot(offline("blocked")),
        ])
    );
}

#[test]
fn undelivered_reminder_stays_due() {
    let mut store = Store::new();
    say(&mut store, 1, "2020-02-28 09:00 +1d take a walk");
    let now = at(2020, 3, 1, 0, 0);
    let mut round = run_notifications(Ok(store.past_due(now))).unwrap();
    assert!(matches!(round.next(), Step::Send { .. }));
    round.record(Outcome::Sent(Err(offline("down"))));
    assert_eq!(round.next(), Step::Done);
    assert_eq!(finish(round), Err(vec![ExecutionError::Bot(offline("down"))]));
    assert_eq!(store.past_due(now).len(), 1);
    assert_eq!(store.reminders[0].due, at(2020, 2, 28, 9, 0));
}

#[test]
fn round_without_store_reports_that_failure() {
    let round = run_notifications(Err(broken("no database"))).unwrap();
    assert_eq!(round.next(), Step::Done);
    assert_eq!(finish(round), Err(vec![ExecutionError::Db(broken("no database"))]));
}

#[test]
fn round_of_nothing_is_over_at_once() {
    let round = run_notifications(Ok(Vec::new())).unwrap();
    assert_eq!(round.next(), Step::Done);
    assert_eq!(finish(round), Ok(()));
}

#[test]
fn completion_moves_or_drops() {
    let once = Reminder { id: 5, due: at(2020, 1, 1, 0, 0), recurrence: None, chat: ChatId(1), message: "x".into() };
    assert_eq!(reminder_done(&once), Some(Request::DeleteReminder { reminder_id: 5 }));
    let yearly = Reminder {
        recurrence: Some(Recurrence { amount: 1, unit: RecurrenceUnit::Years }),
        ..once.clone()
    };
    assert_eq!(
        reminder_done(&yearly),
        Some(Request::RecurReminder { reminder_id: 5, due: at(2021, 1, 1, 0, 0) })
    );
    let last = Reminder { due: at(MAX_YEAR, 6, 1, 0, 0), ..yearly };
    assert_eq!(reminder_done(&last), None);
    assert!(run_notifications(Ok(vec![once, last])).is_none());
}
