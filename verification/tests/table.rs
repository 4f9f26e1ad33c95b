use felidae_dao::table::Table;
use felidae_dao::types::TokenInfo;
use felidae_dao::types::TokenType;
use felidae_dao::AccountId;

fn token(b: u8, t: TokenType) -> TokenInfo {
    TokenInfo { token_type: t, token_address: AccountId([b; 32]) }
}

#[test]
fn table_insert_replaces_and_remove_forgets() {
    let mut t: Table<u16, TokenInfo> = Table::new();
    assert!(!t.contains(&3));
    t.insert(3, token(1, TokenType::Psp22));
    t.insert(5, token(2, TokenType::Psp34));
    t.insert(3, token(9, TokenType::GovernanceToken));
    assert_eq!(t.get(&3), Some(token(9, TokenType::GovernanceToken)));
    assert_eq!(t.get(&5), Some(token(2, TokenType::Psp34)));
    t.remove(&3);
    assert_eq!(t.get(&3), None);
    assert!(t.contains(&5));
    t.remove(&7);
    assert_eq!(t.values_below(10), vec![token(2, TokenType::Psp34)]);
    assert_eq!(t.values_below(5), vec![]);
}
