use fight_bot::adapters_secondary::chat::test::Test;
use fight_bot::adapters_secondary::fight::Random;
use fight_bot::domain::dto::{Fighters, GetFinisher, GetUpperHand, UpperHand};
use fight_bot::domain::fight::{Context, FightError};

fn finisher_texts(victor: &str, vanquished: &str) -> Vec<String> {
    vec![
        format!("Oh my god! {} smashed {} to the troat and FIRED them from life!", victor, vanquished),
        format!("{} shot an INSANE! high kick at {} and sent them flying!", victor, vanquished),
        format!("INCREDIBLE! {} threw {} to the ground and is now kicking them inconscious!", victor, vanquished),
        format!("A spectator gave a chair to {} who then SLAMMED it right on {}'s skull! That's illegal, but not forbidden by the rules.", victor, vanquished),
        format!("That's a THIRD CORD JUMP from {}, right on {} that was already lying on the ground!", victor, vanquished),
    ]
}

#[test]
fn fight_random_adapter() {
    let fighter1 = "John dinner".to_string();
    let fighter2 = "The gravetaker".to_string();

    let get_upper_hand = GetUpperHand {
        fighter1: fighter1.clone(),
        fighter2: fighter2.clone(),
        champion_name: "Rabs".to_string(),
    };

    let upper_hand: UpperHand = Random::get_upper_hand(get_upper_hand);

    assert!(upper_hand.victor == fighter1 || upper_hand.victor == fighter2);
    assert!((upper_hand.vanquished == fighter1 || upper_hand.vanquished == fighter2));
    assert!(upper_hand.victor != upper_hand.vanquished);

    let finisher: String = Random::get_finisher(GetFinisher::from(upper_hand));

    assert!(finisher.contains(&fighter1) && finisher.contains(&fighter2));
}

#[test]
fn name_handling() {
    let context = Context::new("fight_adapter", "test_chat_adapter", "Rabs".to_string());
    let mut chat = Test::new();

    let fighter1 = "Robin Sterieux".to_owned();
    let fighter2 = "Triple Pontage".to_owned();

    let request = context.request_upper_hand(Fighters {
        fighter1: fighter1.clone(),
        fighter2: fighter2.clone(),
    });
    let get_finisher = Context::on_upper_hand(Ok(Random::get_upper_hand(request))).unwrap();
    let send_message = Context::on_finisher(Ok(Random::get_finisher(get_finisher))).unwrap();
    chat.record(send_message.message);
    Context::on_message_sent(Ok(())).unwrap();

    let matching_call = chat
        .calls
        .iter()
        .find(|c| c.contains(&fighter1) && c.contains(&fighter2));

    assert!(matching_call.is_some());
}

#[test]
fn champion_beats_first_fighter() {
    let upper_hand = Random::get_upper_hand(GetUpperHand {
        fighter1: "Rabs".to_string(),
        fighter2: "Bob".to_string(),
        champion_name: "Rabs".to_string(),
    });
    assert_eq!(upper_hand.victor, "Rabs");
    assert_eq!(upper_hand.vanquished, "Bob");
}

#[test]
fn champion_beats_second_fighter() {
    for _ in 0..20 {
        let upper_hand = Random::get_upper_hand(GetUpperHand {
            fighter1: "Bob".to_string(),
            fighter2: "Rabs".to_string(),
            champion_name: "Rabs".to_string(),
        });
        assert_eq!(upper_hand.victor, "Rabs");
        assert_eq!(upper_hand.vanquished, "Bob");
    }
}

#[test]
fn champion_against_itself() {
    let upper_hand = Random::get_upper_hand(GetUpperHand {
        fighter1: "Rabs".to_string(),
        fighter2: "Rabs".to_string(),
        champion_name: "Rabs".to_string(),
    });
    assert_eq!(upper_hand.victor, "Rabs");
    assert_eq!(upper_hand.vanquished, "Rabs");
}

#[test]
fn chance_fight_pairs_both_fighters() {
    let mut seen_first = false;
    let mut seen_second = false;
    for _ in 0..200 {
        let upper_hand = Random::get_upper_hand(GetUpperHand {
            fighter1: "Ann".to_string(),
            fighter2: "Bea".to_string(),
            champion_name: "Rabs".to_string(),
        });
        if upper_hand.victor == "Ann" {
            assert_eq!(upper_hand.vanquished, "Bea");
            seen_first = true;
        } else {
            assert_eq!(upper_hand.victor, "Bea");
            assert_eq!(upper_hand.vanquished, "Ann");
            seen_second = true;
        }
    }
    assert!(seen_first && seen_second);
}

#[test]
fn same_fighter_twice_without_champion() {
    let upper_hand = Random::get_upper_hand(GetUpperHand {
        fighter1: "Ann".to_string(),
        fighter2: "Ann".to_string(),
        champion_name: "Rabs".to_string(),
    });
    assert_eq!(upper_hand.victor, "Ann");
    assert_eq!(upper_hand.vanquished, "Ann");
}

#[test]
fn upper_hand_follows_order() {
    let upper_hand = Random::upper_hand_from_order(vec!["Bea".to_string(), "Ann".to_string()]);
    assert_eq!(upper_hand.victor, "Bea");
    assert_eq!(upper_hand.vanquished, "Ann");
}

#[test]
fn finishers_by_roll() {
    let texts = finisher_texts("Ann", "Bea");
    let request = GetFinisher { victor: "Ann".to_string(), vanquished: "Bea".to_string() };
    for roll in 0..5 {
        assert_eq!(Random::finisher(&request, roll), texts[roll as usize]);
    }
    assert_eq!(Random::finisher(&request, -1), texts[4]);
    assert_eq!(Random::finisher(&request, 99), texts[4]);
    assert_eq!(
        Random::finisher(&request, 0),
        "Oh my god! Ann smashed Bea to the troat and FIRED them from life!"
    );
}

#[test]
fn random_finisher_is_one_of_five() {
    let texts = finisher_texts("Ann", "Bea");
    for _ in 0..50 {
        let finisher = Random::get_finisher(GetFinisher { victor: "Ann".to_string(), vanquished: "Bea".to_string() });
        assert!(texts.contains(&finisher));
        assert!(finisher.contains("Ann") && finisher.contains("Bea"));
    }
}

#[test]
fn finisher_request_keeps_outcome() {
    let request = GetFinisher::from(UpperHand { victor: "Ann".to_string(), vanquished: "Bea".to_string() });
    assert_eq!(request.victor, "Ann");
    assert_eq!(request.vanquished, "Bea");
}

#[test]
fn fighters_come_out_in_order() {
    let request = GetUpperHand::for_fight(
        Fighters { fighter1: "Ann".to_string(), fighter2: "Bea".to_string() },
        "Rabs".to_string(),
    );
    assert_eq!(request.fighter1, "Ann");
    assert_eq!(request.fighter2, "Bea");
    assert_eq!(request.champion_name, "Rabs");
    let mut names = request.fighters();
    assert_eq!(names.next(), Some("Ann"));
    assert_eq!(names.next(), Some("Bea"));
    assert_eq!(names.next(), None);
    assert_eq!(names.next(), None);
}

#[test]
fn context_keeps_its_settings() {
    let context = Context::new("fight_adapter", "chat_adapter", "Rabs".to_string());
    assert_eq!(context.fight_adapter_name, "fight_adapter");
    assert_eq!(context.chat_adapter_name, "chat_adapter");
    assert_eq!(context.champion_name, "Rabs");
    let request = context.request_upper_hand(Fighters { fighter1: "Ann".to_string(), fighter2: "Bea".to_string() });
    assert_eq!(request.champion_name, "Rabs");
}

#[test]
fn fight_steps_report_errors() {
    match Context::on_upper_hand(Err("down".to_string())) {
        Err(error) => assert_eq!(error.message(), "could not get the upper hand: down"),
        Ok(_) => panic!("an error was expected"),
    }
    match Context::on_finisher(Err("gone".to_string())) {
        Err(error) => assert_eq!(error.message(), "could not get the finisher: gone"),
        Ok(_) => panic!("an error was expected"),
    }
    match Context::on_message_sent(Err("closed".to_string())) {
        Err(FightError::Delivery(reason)) => assert_eq!(reason, "closed"),
        _ => panic!("a delivery error was expected"),
    }
    assert_eq!(FightError::Delivery("closed".to_string()).message(), "could not get the finisher: closed");
}

#[test]
fn fight_steps_pass_replies_on() {
    let request = Context::on_upper_hand(Ok(UpperHand { victor: "Ann".to_string(), vanquished: "Bea".to_string() })).unwrap();
    assert_eq!(request.victor, "Ann");
    assert_eq!(request.vanquished, "Bea");
    let message = Context::on_finisher(Ok("Ann won".to_string())).unwrap();
    assert_eq!(message.message, "Ann won");
    assert!(Context::on_message_sent(Ok(())).is_ok());
}

#[test]
fn test_adapter_keeps_messages_in_order() {
    let mut chat = Test::new();
    assert!(chat.calls.is_empty());
    chat.record("one".to_string());
    chat.record("two".to_string());
    assert_eq!(chat.calls, vec!["one".to_string(), "two".to_string()]);
}

#[test]
fn test_adapter_history_only_grows() {
    let mut chat = Test::new();
    let mut history = vec![chat.calls.clone()];
    for message in ["a", "b", "c"] {
        chat.record(message.to_string());
        history.push(chat.calls.clone());
    }
    for i in 0..history.len() {
        for j in i..history.len() {
            assert!(history[j].starts_with(&history[i]));
            assert_eq!(history[j].len() - history[i].len(), j - i);
        }
    }
    assert_eq!(history[3], vec!["a".to_string(), "b".to_string(), "c".to_string()]);
}

#[test]
fn context_clone_keeps_settings() {
    let context = Context::new("fight_adapter", "chat_adapter", "Rabs".to_string());
    let copy = context.clone();
    assert_eq!(copy.fight_adapter_name, "fight_adapter");
    assert_eq!(copy.chat_adapter_name, "chat_adapter");
    assert_eq!(copy.champion_name, "Rabs");
}
