use blackjack::cards::bankroll::Bankroll;

#[test]
fn should_set_player_bankroll() {
    let mut br = Bankroll::new();

    br.set_bankroll(100);

    assert_eq!(br.get_bankroll(), 100);
}

#[test]
fn should_sub_player_bankroll() {
    let mut br = Bankroll::new();

    br.set_bankroll(100);

    let curr_bankroll = br.sub_funds(10);

    assert!(curr_bankroll.is_ok());
    assert_eq!(curr_bankroll.unwrap_or_default(), 90);
    assert_eq!(br.get_bankroll(), 90);
}

#[test]
fn should_add_player_bankroll() {
    let mut br = Bankroll::new();

    br.set_bankroll(100);

    let curr_bankroll = br.add_funds(10);

    assert!(curr_bankroll.is_ok());
    assert_eq!(curr_bankroll.unwrap_or_default(), 110);
    assert_eq!(br.get_bankroll(), 110);
}

#[test]
fn should_not_sub_insufficent_funds() {
    let mut br = Bankroll::new();

    br.set_bankroll(100);

    let result = br.sub_funds(200);

    assert!(result.is_err());
    assert_eq!(br.get_bankroll(), 100);
}

#[test]
fn addition_past_the_limit_is_rejected_distinctly() {
    let mut br = Bankroll::new();
    br.set_bankroll(u32::MAX - 1);

    let result = br.add_funds(2);
    assert_eq!(result, Err("Overflow"));
    assert_eq!(br.get_bankroll(), u32::MAX - 1);

    let result = br.sub_funds(u32::MAX);
    assert_eq!(result, Err("Insufficient funds"));
    assert_eq!(br.get_bankroll(), u32::MAX - 1);
}
