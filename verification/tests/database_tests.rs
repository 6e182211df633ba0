use stride::database::{
    all_rows_query, bool_to_str, create_table_query, default_row, delete_row_query, dj_role_of,
    insert_row_query, lookup_query, missing_row_query, parse_i64, row_exists_query,
    rows_sorted_query, select_by_id_query, select_query, table_exists_query, update_by_id_query,
    update_query, ColumnType, GuildId, RoleId, UserId, ValidID, ValidValue, BOOL, INTEGER, TEXT,
};

#[test]
fn bool_to_str_gives_one_and_zero() {
    assert_eq!(bool_to_str(true), "1");
    assert_eq!(bool_to_str(false), "0");
}

#[test]
fn valid_values_format() {
    assert_eq!(UserId(12).vv_fmt(), "12");
    assert_eq!(RoleId(0).vv_fmt(), "0");
    assert_eq!(GuildId(u64::MAX).vv_fmt(), "18446744073709551615");
    assert_eq!(77u64.vv_fmt(), "77");
    assert_eq!(u128::MAX.vv_fmt(), "340282366920938463463374607431768211455");
    assert_eq!(true.vv_fmt(), "1");
    assert_eq!(false.vv_fmt(), "0");
    assert_eq!("plain".vv_fmt(), "plain");
    assert_eq!("it's 'quoted'".vv_fmt(), "it''s ''quoted''");
    assert_eq!("".vv_fmt(), "");
}

#[test]
fn valid_ids_format() {
    assert_eq!(UserId(12).to_u64(), 12);
    assert_eq!(RoleId(13).to_u64(), 13);
    assert_eq!(GuildId(14).to_u64(), 14);
    assert_eq!(UserId(12).vi_fmt(), "12");
    assert_eq!(RoleId(13).vi_fmt(), "13");
    assert_eq!(GuildId(1009).vi_fmt(), "1009");
}

#[test]
fn column_types() {
    assert_eq!(TEXT.which(), "TEXT");
    assert_eq!(INTEGER.which(), "BIGINT");
    assert_eq!(BOOL.which(), "BOOLEAN");
    assert_eq!(TEXT, ColumnType::Text);
    assert_ne!(TEXT, INTEGER);
}

#[test]
fn select_statement() {
    assert_eq!(
        select_query("guild_settings", "dj_id", "guild_id", &GuildId(99)),
        "SELECT dj_id FROM guild_settings WHERE guild_id = 99"
    );
}

#[test]
fn update_statement() {
    assert_eq!(
        update_query("guild_settings", "dj_id", &RoleId(5), "guild_id", &GuildId(99)),
        "UPDATE guild_settings SET dj_id = '5' WHERE guild_id = 99"
    );
    assert_eq!(
        update_query("guild_settings", "dj_only", &true, "guild_id", &GuildId(99)),
        "UPDATE guild_settings SET dj_only = '1' WHERE guild_id = 99"
    );
    assert_eq!(
        update_query("t", "name", &"O'Neil", "id", &UserId(1)),
        "UPDATE t SET name = 'O''Neil' WHERE id = 1"
    );
}

#[test]
fn row_exists_statement() {
    assert_eq!(
        row_exists_query("guild_settings", "guild_id", &GuildId(99)),
        "SELECT EXISTS(SELECT guild_id FROM guild_settings WHERE guild_id = '99')"
    );
}

#[test]
fn delete_statement() {
    assert_eq!(delete_row_query("t", "id", &7u64), "DELETE FROM t WHERE id = 7");
}

#[test]
fn table_exists_statement() {
    assert_eq!(
        table_exists_query("stride", "guild_settings"),
        "SELECT EXISTS(SELECT table_name FROM information_schema.tables WHERE table_schema = 'stride' AND table_name = 'guild_settings')"
    );
}

#[test]
fn rows_statements() {
    assert_eq!(all_rows_query("t", "id"), "SELECT id FROM t");
    assert_eq!(
        rows_sorted_query("t", "id", "score", 10, 25),
        "SELECT id,score FROM t ORDER BY score DESC LIMIT 10,25"
    );
}

#[test]
fn create_table_statement() {
    assert_eq!(
        create_table_query(
            "guild_settings",
            &["guild_id", "dj_id", "dj_only"],
            &[INTEGER, INTEGER, BOOL]
        ),
        "CREATE table IF NOT exists guild_settings(guild_id BIGINT, dj_id BIGINT, dj_only BOOLEAN)"
    );
    assert_eq!(create_table_query("t", &["name"], &[TEXT]), "CREATE table IF NOT exists t(name TEXT)");
}

#[test]
fn parse_i64_accepts_what_the_machine_parses() {
    let cases = [
        "0", "7", "-7", "+7", "007", "-0", "+0", "9223372036854775807", "-9223372036854775808",
        "9223372036854775808", "-9223372036854775809", "99999999999999999999999", "", "-", "+",
        "--5", "+-5", "5-", "1 ", " 1", "12a", "a12", "1.5", "true", "0000000000000000000000001",
        "-0000000000000000000009223372036854775808", "\u{0661}",
    ];
    for case in cases {
        assert_eq!(parse_i64(case), case.parse::<i64>().ok(), "{:?}", case);
    }
}

#[test]
fn insert_statement() {
    assert_eq!(
        insert_row_query("guild_settings", &["99", "0", "true", "false", "!"]),
        "INSERT INTO guild_settings VALUES (99, 0, 1, 0, '!')"
    );
    assert_eq!(insert_row_query("t", &["-5", "+5", "007"]), "INSERT INTO t VALUES (-5, 5, 7)");
    assert_eq!(insert_row_query("t", &["it's"]), "INSERT INTO t VALUES ('it's')");
    assert_eq!(insert_row_query("t", &["True", ""]), "INSERT INTO t VALUES ('True', '')");
    assert_eq!(insert_row_query("t", &[]), "INSERT INTO t VALUES)");
}

#[test]
fn default_row_starts_with_the_id() {
    assert_eq!(
        default_row(&["0", "0", "1", "x"], &GuildId(99)),
        vec!["99".to_string(), "0".to_string(), "1".to_string(), "x".to_string()]
    );
    assert_eq!(default_row(&["0"], &GuildId(5)), vec!["5".to_string()]);
}

#[test]
fn sorted_rows_keep_the_order_of_first_keys() {
    let m = stride::rows::sorted_rows(&vec![(3, 30), (1, 10), (3, 33), (2, 20), (1, 11)]);
    let pairs: Vec<(u64, u64)> = m.iter().map(|(k, v)| (*k, *v)).collect();
    assert_eq!(pairs, vec![(3, 33), (1, 11), (2, 20)]);
    assert!(stride::rows::sorted_rows(&Vec::new()).is_empty());
}

#[test]
fn rows_reinterpret_negative_numbers() {
    assert_eq!(stride::rows::reinterpret(0), 0);
    assert_eq!(stride::rows::reinterpret(5), 5);
    assert_eq!(stride::rows::reinterpret(-1), u64::MAX);
    assert_eq!(stride::rows::reinterpret(i64::MIN), 1u64 << 63);
    assert_eq!(stride::rows::reinterpret(-7), (-7i64) as u64);
    assert_eq!(stride::rows::all_rows(&vec![1, -1, 0]), vec![1, u64::MAX, 0]);
    let m = stride::rows::sorted_rows(&vec![(-1, -2)]);
    assert_eq!(m.get(&u64::MAX), Some(&(u64::MAX - 1)));
}

#[test]
fn statements_by_id() {
    assert_eq!(select_by_id_query("guild_settings", "prefix", 9), "SELECT prefix FROM guild_settings WHERE id = 9");
    assert_eq!(
        update_by_id_query("guild_settings", "prefix", "'!'", 9),
        "UPDATE guild_settings SET prefix = '''!''' WHERE id = 9"
    );
    assert_eq!(lookup_query("guild_settings", 9), "SELECT EXISTS(SELECT 1 FROM guild_settings WHERE id = 9)");
    assert_eq!(
        missing_row_query("guild_settings", 9),
        Some("INSERT INTO guild_settings VALUES (9, '!', '0')".to_string())
    );
    assert_eq!(missing_row_query("other", 9), None);
    assert_eq!(missing_row_query("guild_setting", 9), None);
    assert_eq!(dj_role_of(0), None);
    assert_eq!(dj_role_of(77), Some(77));
    assert_eq!(dj_role_of(-1), Some(u64::MAX));
}
