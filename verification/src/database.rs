//! The text of the statements that the settings store is asked to run.
use crate::text::{
    chars_of, decimal, push_char, push_decimal, push_decimal_wide, push_text, texts,
};
use vstd::prelude::*;

verus! {

/// Textual form of a boolean as a settings column stores it.
pub open spec fn bool_text(b: bool) -> Seq<char> {
    if b {
        seq!['1']
    } else {
        seq!['0']
    }
}

/// Returns `"1"` for `true` and `"0"` for `false`.
pub fn bool_to_str(b: bool) -> (s: &'static str)
    ensures
        s@ == bool_text(b),
{
    proof {
        reveal_strlit("1");
        reveal_strlit("0");
    }
    if b {
        assert("1"@ =~= seq!['1']);
        "1"
    } else {
        assert("0"@ =~= seq!['0']);
        "0"
    }
}

/// `s` with every single quote doubled, so that it can stand between
/// single quotes in a statement.
pub open spec fn scrubbed(s: Seq<char>) -> Seq<char>
    decreases s.len(),
{
    if s.len() == 0 {
        Seq::empty()
    } else if s.last() == '\'' {
        scrubbed(s.drop_last()) + seq!['\'', '\'']
    } else {
        scrubbed(s.drop_last()).push(s.last())
    }
}

/// Appends `s` with every single quote doubled.
pub fn push_scrubbed(out: &mut String, s: &str)
    ensures
        final(out)@ == old(out)@ + scrubbed(s@),
{
    let chars = chars_of(s);
    let mut i: usize = 0;
    while i < chars.len()
        invariant
            i <= chars.len(),
            chars@ == s@,
            out@ == old(out)@ + scrubbed(chars@.take(i as int)),
        decreases chars.len() - i,
    {
        let c = chars[i];
        proof {
            let done = chars@.take(i as int);
            let next = chars@.take(i + 1);
            assert(next.drop_last() =~= done);
            assert(next.last() == c);
            if c == '\'' {
                assert((old(out)@ + scrubbed(done)).push('\'').push('\'') =~= old(out)@ + (scrubbed(
                    done,
                ) + seq!['\'', '\'']));
            } else {
                assert((old(out)@ + scrubbed(done)).push(c) =~= old(out)@ + scrubbed(done).push(c));
            }
        }
        if c == '\'' {
            push_char(out, '\'');
            push_char(out, '\'');
        } else {
            push_char(out, c);
        }
        i += 1;
    }
    assert(chars@.take(chars.len() as int) =~= chars@);
}

/// A value that may be written into a statement.
pub trait ValidValue: 'static {
    /// The value as a statement holds it.
    spec fn spec_text(&self) -> Seq<char>;

    /// The value as a statement holds it.
    fn vv_fmt(&self) -> (text: String)
        ensures
            text@ == self.spec_text(),
    ;
}

/// A value that names a row.
pub trait ValidID: 'static {
    /// The number that names the row.
    spec fn spec_id(&self) -> u64;

    /// The number that names the row.
    fn to_u64(&self) -> (id: u64)
        ensures
            id == self.spec_id(),
    ;

    /// The number as a statement holds it.
    fn vi_fmt(&self) -> (text: String)
        ensures
            text@ == decimal(self.spec_id() as nat),
    ;
}

/// The id of a user.
#[derive(Clone, Copy, Debug, PartialEq, Eq, Structural)]
pub struct UserId(pub u64);

/// The id of a role.
#[derive(Clone, Copy, Debug, PartialEq, Eq, Structural)]
pub struct RoleId(pub u64);

/// The id of a guild.
#[derive(Clone, Copy, Debug, PartialEq, Eq, Structural)]
pub struct GuildId(pub u64);

/// `n` in decimal.
fn decimal_string(n: u64) -> (text: String)
    ensures
        text@ == decimal(n as nat),
{
    let mut text = String::new();
    push_decimal(&mut text, n);
    assert(text@ =~= decimal(n as nat));
    text
}

impl ValidValue for UserId {
    open spec fn spec_text(&self) -> Seq<char> {
        decimal(self.0 as nat)
    }

    fn vv_fmt(&self) -> (text: String) {
        decimal_string(self.0)
    }
}

impl ValidValue for RoleId {
    open spec fn spec_text(&self) -> Seq<char> {
        decimal(self.0 as nat)
    }

    fn vv_fmt(&self) -> (text: String) {
        decimal_string(self.0)
    }
}

impl ValidValue for GuildId {
    open spec fn spec_text(&self) -> Seq<char> {
        decimal(self.0 as nat)
    }

    fn vv_fmt(&self) -> (text: String) {
        decimal_string(self.0)
    }
}

impl ValidValue for u64 {
    open spec fn spec_text(&self) -> Seq<char> {
        decimal(*self as nat)
    }

    fn vv_fmt(&self) -> (text: String) {
        decimal_string(*self)
    }
}

impl ValidValue for u128 {
    open spec fn spec_text(&self) -> Seq<char> {
        decimal(*self as nat)
    }

    fn vv_fmt(&self) -> (text: String) {
        let mut text = String::new();
        push_decimal_wide(&mut text, *self);
        assert(text@ =~= decimal(*self as nat));
        text
    }
}

impl ValidValue for &'static str {
    open spec fn spec_text(&self) -> Seq<char> {
        scrubbed(self@)
    }

    fn vv_fmt(&self) -> (text: String) {
        let mut text = String::new();
        push_scrubbed(&mut text, *self);
        assert(text@ =~= scrubbed(self@));
        text
    }
}

impl ValidValue for bool {
    open spec fn spec_text(&self) -> Seq<char> {
        bool_text(*self)
    }

    fn vv_fmt(&self) -> (text: String) {
        let mut text = String::new();
        push_text(&mut text, bool_to_str(*self));
        assert(text@ =~= bool_text(*self));
        text
    }
}

impl ValidID for UserId {
    open spec fn spec_id(&self) -> u64 {
        self.0
    }

    fn to_u64(&self) -> (id: u64) {
        self.0
    }

    fn vi_fmt(&self) -> (text: String) {
        decimal_string(self.0)
    }
}

impl ValidID for RoleId {
    open spec fn spec_id(&self) -> u64 {
        self.0
    }

    fn to_u64(&self) -> (id: u64) {
        self.0
    }

    fn vi_fmt(&self) -> (text: String) {
        decimal_string(self.0)
    }
}

impl ValidID for GuildId {
    open spec fn spec_id(&self) -> u64 {
        self.0
    }

    fn to_u64(&self) -> (id: u64) {
        self.0
    }

    fn vi_fmt(&self) -> (text: String) {
        decimal_string(self.0)
    }
}

/// The type of a column.
#[derive(Clone, Copy, Debug, PartialEq, Eq, Structural)]
pub enum ColumnType {
    Text,
    Integer,
    Bool,
}

pub const TEXT: ColumnType = ColumnType::Text;

pub const INTEGER: ColumnType = ColumnType::Integer;

pub const BOOL: ColumnType = ColumnType::Bool;

impl ColumnType {
    /// The name of the type in a statement.
    pub open spec fn spec_which(&self) -> Seq<char> {
        match self {
            ColumnType::Text => "TEXT"@,
            ColumnType::Integer => "BIGINT"@,
            ColumnType::Bool => "BOOLEAN"@,
        }
    }

    /// The name of the type in a statement.
    pub fn which(&self) -> (name: &'static str)
        ensures
            name@ == self.spec_which(),
    {
        match self {
            ColumnType::Text => "TEXT",
            ColumnType::Integer => "BIGINT",
            ColumnType::Bool => "BOOLEAN",
        }
    }
}

/// The statement that reads one column of the row that an id names.
pub open spec fn select_text(
    table: Seq<char>,
    retrieve_column: Seq<char>,
    where_column: Seq<char>,
    where_value: u64,
) -> Seq<char> {
    "SELECT "@ + retrieve_column + " FROM "@ + table + " WHERE "@ + where_column + " = "@ + decimal(
        where_value as nat,
    )
}

/// The statement that reads `retrieve_column` of the row of `table` whose
/// `where_column` is `where_value`.
pub fn select_query<T: ValidID>(
    table: &str,
    retrieve_column: &str,
    where_column: &str,
    where_value: &T,
) -> (query: String)
    ensures
        query@ == select_text(table@, retrieve_column@, where_column@, where_value.spec_id()),
{
    let mut query = String::new();
    push_text(&mut query, "SELECT ");
    push_text(&mut query, retrieve_column);
    push_text(&mut query, " FROM ");
    push_text(&mut query, table);
    push_text(&mut query, " WHERE ");
    push_text(&mut query, where_column);
    push_text(&mut query, " = ");
    push_decimal(&mut query, where_value.to_u64());
    assert(query@ =~= select_text(table@, retrieve_column@, where_column@, where_value.spec_id()));
    query
}

/// The statement that sets one column of the row that an id names.
pub open spec fn update_text(
    table: Seq<char>,
    update_column: Seq<char>,
    update_value: Seq<char>,
    where_column: Seq<char>,
    where_id: u64,
) -> Seq<char> {
    "UPDATE "@ + table + " SET "@ + update_column + " = '"@ + update_value + "' WHERE "@
        + where_column + " = "@ + decimal(where_id as nat)
}

/// The statement that sets `update_column` to `update_value` in the row
/// of `table` whose `where_column` is `where_id`.
pub fn update_query<T: ValidValue, U: ValidID>(
    table: &str,
    update_column: &str,
    update_value: &T,
    where_column: &str,
    where_id: &U,
) -> (query: String)
    ensures
        query@ == update_text(
            table@,
            update_column@,
            update_value.spec_text(),
            where_column@,
            where_id.spec_id(),
        ),
{
    let value = update_value.vv_fmt();
    let id = where_id.vi_fmt();
    let mut query = String::new();
    push_text(&mut query, "UPDATE ");
    push_text(&mut query, table);
    push_text(&mut query, " SET ");
    push_text(&mut query, update_column);
    push_text(&mut query, " = '");
    push_text(&mut query, value.as_str());
    push_text(&mut query, "' WHERE ");
    push_text(&mut query, where_column);
    push_text(&mut query, " = ");
    push_text(&mut query, id.as_str());
    assert(query@ =~= update_text(
        table@,
        update_column@,
        update_value.spec_text(),
        where_column@,
        where_id.spec_id(),
    ));
    query
}

/// The statement that asks whether a row with a given id exists.
pub open spec fn row_exists_text(table: Seq<char>, column_name: Seq<char>, id: u64) -> Seq<char> {
    "SELECT EXISTS(SELECT "@ + column_name + " FROM "@ + table + " WHERE "@ + column_name + " = '"@
        + decimal(id as nat) + "')"@
}

/// The statement that asks whether `table` has a row whose `column_name` is `id`.
pub fn row_exists_query<T: ValidID>(table: &str, column_name: &str, id: &T) -> (query: String)
    ensures
        query@ == row_exists_text(table@, column_name@, id.spec_id()),
{
    let id_text = id.vi_fmt();
    let mut query = String::new();
    push_text(&mut query, "SELECT EXISTS(SELECT ");
    push_text(&mut query, column_name);
    push_text(&mut query, " FROM ");
    push_text(&mut query, table);
    push_text(&mut query, " WHERE ");
    push_text(&mut query, column_name);
    push_text(&mut query, " = '");
    push_text(&mut query, id_text.as_str());
    push_text(&mut query, "')");
    assert(query@ =~= row_exists_text(table@, column_name@, id.spec_id()));
    query
}

/// The statement that deletes the rows with a given value in a column.
pub open spec fn delete_row_text(table: Seq<char>, column_name: Seq<char>, value: Seq<char>) -> Seq<
    char,
> {
    "DELETE FROM "@ + table + " WHERE "@ + column_name + " = "@ + value
}

/// The statement that deletes the rows of `table` whose `column_name` is `value`.
pub fn delete_row_query<T: ValidValue>(table: &str, column_name: &str, value: &T) -> (query: String)
    ensures
        query@ == delete_row_text(table@, column_name@, value.spec_text()),
{
    let value_text = value.vv_fmt();
    let mut query = String::new();
    push_text(&mut query, "DELETE FROM ");
    push_text(&mut query, table);
    push_text(&mut query, " WHERE ");
    push_text(&mut query, column_name);
    push_text(&mut query, " = ");
    push_text(&mut query, value_text.as_str());
    assert(query@ =~= delete_row_text(table@, column_name@, value.spec_text()));
    query
}

/// The statement that asks whether a table exists in a schema.
pub open spec fn table_exists_text(schema: Seq<char>, table: Seq<char>) -> Seq<char> {
    "SELECT EXISTS(SELECT table_name FROM information_schema.tables WHERE table_schema = '"@
        + schema + "' AND table_name = '"@ + table + "')"@
}

/// The statement that asks whether `schema` has a table `table`.
pub fn table_exists_query(schema: &str, table: &str) -> (query: String)
    ensures
        query@ == table_exists_text(schema@, table@),
{
    let mut query = String::new();
    push_text(
        &mut query,
        "SELECT EXISTS(SELECT table_name FROM information_schema.tables WHERE table_schema = '",
    );
    push_text(&mut query, schema);
    push_text(&mut query, "' AND table_name = '");
    push_text(&mut query, table);
    push_text(&mut query, "')");
    assert(query@ =~= table_exists_text(schema@, table@));
    query
}

/// The statement that reads one column of every row.
pub open spec fn all_rows_text(table: Seq<char>, key: Seq<char>) -> Seq<char> {
    "SELECT "@ + key + " FROM "@ + table
}

/// The statement that reads the column `key` of every row of `table`.
pub fn all_rows_query(table: &str, key: &str) -> (query: String)
    ensures
        query@ == all_rows_text(table@, key@),
{
    let mut query = String::new();
    push_text(&mut query, "SELECT ");
    push_text(&mut query, key);
    push_text(&mut query, " FROM ");
    push_text(&mut query, table);
    assert(query@ =~= all_rows_text(table@, key@));
    query
}

/// The statement that reads two columns of a window of the rows, sorted
/// downwards by the second.
pub open spec fn rows_sorted_text(
    table: Seq<char>,
    key: Seq<char>,
    sort_key: Seq<char>,
    lower_bound: u64,
    rows: u64,
) -> Seq<char> {
    "SELECT "@ + key + ","@ + sort_key + " FROM "@ + table + " ORDER BY "@ + sort_key
        + " DESC LIMIT "@ + decimal(lower_bound as nat) + ","@ + decimal(rows as nat)
}

/// The statement that reads `key` and `sort_key` of `rows` rows of
/// `table`, from the row `lower_bound` on, in descending order of `sort_key`.
pub fn rows_sorted_query(table: &str, key: &str, sort_key: &str, lower_bound: u64, rows: u64) -> (query:
    String)
    ensures
        query@ == rows_sorted_text(table@, key@, sort_key@, lower_bound, rows),
{
    let mut query = String::new();
    push_text(&mut query, "SELECT ");
    push_text(&mut query, key);
    push_text(&mut query, ",");
    push_text(&mut query, sort_key);
    push_text(&mut query, " FROM ");
    push_text(&mut query, table);
    push_text(&mut query, " ORDER BY ");
    push_text(&mut query, sort_key);
    push_text(&mut query, " DESC LIMIT ");
    push_decimal(&mut query, lower_bound);
    push_text(&mut query, ",");
    push_decimal(&mut query, rows);
    assert(query@ =~= rows_sorted_text(table@, key@, sort_key@, lower_bound, rows));
    query
}

/// The first `n` column definitions, each followed by a comma and a space.
pub open spec fn columns_text(keys: Seq<&str>, types: Seq<ColumnType>, n: int) -> Seq<char>
    decreases n,
{
    if n <= 0 {
        Seq::empty()
    } else {
        columns_text(keys, types, n - 1) + keys[n - 1]@ + " "@ + types[n - 1].spec_which() + ", "@
    }
}

/// The statement that creates a table unless it exists.
pub open spec fn create_table_text(table: Seq<char>, keys: Seq<&str>, types: Seq<ColumnType>) -> Seq<
    char,
> {
    let last = keys.len() - 1;
    "CREATE table IF NOT exists "@ + table + "("@ + columns_text(keys, types, last) + keys[last]@
        + " "@ + types[last].spec_which() + ")"@
}

/// The statement that creates `table`, unless it exists, with the columns
/// `keys` of the types `types`. There is a type for every key, and at
/// least one key.
pub fn create_table_query(table: &str, keys: &[&str], types: &[ColumnType]) -> (query: String)
    requires
        keys@.len() == types@.len(),
        keys@.len() >= 1,
    ensures
        query@ == create_table_text(table@, keys@, types@),
{
    let mut query = String::new();
    push_text(&mut query, "CREATE table IF NOT exists ");
    push_text(&mut query, table);
    push_text(&mut query, "(");
    let ghost start = query@;
    let last_index = keys.len() - 1;
    let mut i: usize = 0;
    while i < last_index
        invariant
            i <= last_index,
            last_index == keys@.len() - 1,
            keys@.len() == types@.len(),
            query@ == start + columns_text(keys@, types@, i as int),
        decreases last_index - i,
    {
        push_text(&mut query, keys[i]);
        push_text(&mut query, " ");
        push_text(&mut query, types[i].which());
        push_text(&mut query, ", ");
        i += 1;
        assert(query@ =~= start + columns_text(keys@, types@, i as int));
    }
    push_text(&mut query, keys[last_index]);
    push_text(&mut query, " ");
    push_text(&mut query, types[last_index].which());
    push_text(&mut query, ")");
    assert(query@ =~= create_table_text(table@, keys@, types@));
    query
}

/// The value of a decimal digit.
pub open spec fn digit_of(c: char) -> Option<int> {
    if c == '0' {
        Some(0)
    } else if c == '1' {
        Some(1)
    } else if c == '2' {
        Some(2)
    } else if c == '3' {
        Some(3)
    } else if c == '4' {
        Some(4)
    } else if c == '5' {
        Some(5)
    } else if c == '6' {
        Some(6)
    } else if c == '7' {
        Some(7)
    } else if c == '8' {
        Some(8)
    } else if c == '9' {
        Some(9)
    } else {
        None
    }
}

/// The number that the decimal digits `s` write, if `s` holds digits only.
pub open spec fn digits_value(s: Seq<char>) -> Option<int>
    decreases s.len(),
{
    if s.len() == 0 {
        Some(0)
    } else {
        match (digits_value(s.drop_last()), digit_of(s.last())) {
            (Some(v), Some(d)) => Some(10 * v + d),
            _ => None,
        }
    }
}

/// The integer that `s` writes: an optional sign, then one decimal digit or
/// more, and nothing else, for a number that fits 64 bits with a sign.
pub open spec fn parsed_i64(s: Seq<char>) -> Option<i64> {
    let negative = s.len() > 0 && s[0] == '-';
    let signed = s.len() > 0 && (s[0] == '-' || s[0] == '+');
    let digits = if signed {
        s.skip(1)
    } else {
        s
    };
    if digits.len() == 0 {
        None
    } else {
        match digits_value(digits) {
            None => None,
            Some(v) => {
                let value = if negative {
                    -v
                } else {
                    v
                };
                if i64::MIN <= value <= i64::MAX {
                    Some(value as i64)
                } else {
                    None
                }
            },
        }
    }
}

/// Digits that write a number start with digits that write a number, and
/// one that is not larger.
proof fn lemma_digits_prefix(s: Seq<char>, k: int)
    requires
        0 <= k <= s.len(),
        digits_value(s) is Some,
    ensures
        digits_value(s.take(k)) is Some,
        0 <= digits_value(s.take(k))->0 <= digits_value(s)->0,
    decreases s.len() - k,
{
    if k == s.len() {
        assert(s.take(k) =~= s);
        lemma_digits_not_negative(s);
    } else {
        lemma_digits_prefix(s.drop_last(), k);
        assert(s.drop_last().take(k) =~= s.take(k));
    }
}

/// Digits write no negative number.
proof fn lemma_digits_not_negative(s: Seq<char>)
    requires
        digits_value(s) is Some,
    ensures
        digits_value(s)->0 >= 0,
    decreases s.len(),
{
    if s.len() > 0 {
        lemma_digits_not_negative(s.drop_last());
    }
}

/// The value of the decimal digit `c`.
fn digit_value(c: char) -> (d: Option<u64>)
    ensures
        match d {
            Some(v) => digit_of(c) == Some(v as int) && v < 10,
            None => digit_of(c) is None,
        },
{
    if c == '0' {
        Some(0)
    } else if c == '1' {
        Some(1)
    } else if c == '2' {
        Some(2)
    } else if c == '3' {
        Some(3)
    } else if c == '4' {
        Some(4)
    } else if c == '5' {
        Some(5)
    } else if c == '6' {
        Some(6)
    } else if c == '7' {
        Some(7)
    } else if c == '8' {
        Some(8)
    } else if c == '9' {
        Some(9)
    } else {
        None
    }
}

/// The largest magnitude of a negative 64-bit integer.
pub const I64_MIN_MAGNITUDE: u64 = 9_223_372_036_854_775_808;

/// Reads `s` as a signed 64-bit integer in decimal.
pub fn parse_i64(s: &str) -> (r: Option<i64>)
    ensures
        r == parsed_i64(s@),
{
    let chars = chars_of(s);
    if chars.len() == 0 {
        return None;
    }
    let negative = chars[0] == '-';
    let start: usize = if chars[0] == '-' || chars[0] == '+' {
        1
    } else {
        0
    };
    if start == chars.len() {
        assert(s@.skip(1).len() == 0);
        return None;
    }
    let ghost digits = if start == 1 {
        s@.skip(1)
    } else {
        s@
    };
    assert(digits =~= s@.skip(start as int));
    assert(digits.take(0) =~= Seq::<char>::empty());
    let mut magnitude: u64 = 0;
    let mut i: usize = start;
    while i < chars.len()
        invariant
            start <= i <= chars.len(),
            start < chars.len(),
            chars@ == s@,
            negative == (s@[0] == '-'),
            start == (if s@[0] == '-' || s@[0] == '+' {
                1int
            } else {
                0int
            }),
            digits == (if start == 1 {
                s@.skip(1)
            } else {
                s@
            }),
            digits == s@.skip(start as int),
            digits_value(digits.take(i - start)) == Some(magnitude as int),
            magnitude <= I64_MIN_MAGNITUDE,
        decreases chars.len() - i,
    {
        let ghost done = digits.take(i - start);
        let ghost next = digits.take(i - start + 1);
        proof {
            assert(next.drop_last() =~= done);
            assert(next.last() == chars@[i as int]);
        }
        match digit_value(chars[i]) {
            None => {
                proof {
                    assert(digits_value(next) is None);
                    if digits_value(digits) is Some {
                        lemma_digits_prefix(digits, i - start + 1);
                    }
                }
                return None;
            },
            Some(d) => {
                if magnitude > (I64_MIN_MAGNITUDE - d) / 10 {
                    proof {
                        assert(10 * magnitude + d > I64_MIN_MAGNITUDE);
                        assert(digits_value(next) == Some(10 * magnitude + d));
                        if digits_value(digits) is Some {
                            lemma_digits_prefix(digits, i - start + 1);
                        }
                    }
                    return None;
                }
                magnitude = 10 * magnitude + d;
            },
        }
        i += 1;
    }
    proof {
        assert(digits.take(chars.len() - start) =~= digits);
    }
    if negative {
        if magnitude == I64_MIN_MAGNITUDE {
            Some(i64::MIN)
        } else {
            Some(-(magnitude as i64))
        }
    } else if magnitude == I64_MIN_MAGNITUDE {
        None
    } else {
        Some(magnitude as i64)
    }
}

/// `i` in decimal, with a minus sign before a negative number.
pub open spec fn signed_decimal(i: int) -> Seq<char> {
    if i < 0 {
        seq!['-'] + decimal((-i) as nat)
    } else {
        decimal(i as nat)
    }
}

/// Appends `i` in decimal.
pub fn push_signed_decimal(out: &mut String, i: i64)
    ensures
        final(out)@ == old(out)@ + signed_decimal(i as int),
{
    if i < 0 {
        push_char(out, '-');
        let magnitude: u64 = if i == i64::MIN {
            I64_MIN_MAGNITUDE
        } else {
            (-i) as u64
        };
        push_decimal(out, magnitude);
        assert(old(out)@.push('-') + decimal(magnitude as nat) =~= old(out)@ + (seq!['-'] + decimal(
            magnitude as nat,
        )));
    } else {
        push_decimal(out, i as u64);
    }
}

/// One value of a row as an insert statement holds it: a number as the
/// number, `true` and `false` as 1 and 0, anything else between single quotes.
pub open spec fn row_value_text(s: Seq<char>) -> Seq<char> {
    match parsed_i64(s) {
        Some(i) => signed_decimal(i as int),
        None => if s == "true"@ {
            seq!['1']
        } else if s == "false"@ {
            seq!['0']
        } else {
            seq!['\''] + s + seq!['\'']
        },
    }
}

/// The first `n` values of a row, each followed by a comma and a space.
pub open spec fn row_values_text(values: Seq<&str>, n: int) -> Seq<char>
    decreases n,
{
    if n <= 0 {
        Seq::empty()
    } else {
        row_values_text(values, n - 1) + row_value_text(values[n - 1]@) + seq![',', ' ']
    }
}

/// The statement that inserts a row: the values, each followed by a comma
/// and a space, behind the opening bracket; then the last two characters
/// give way to the closing bracket.
pub open spec fn insert_row_text(table: Seq<char>, values: Seq<&str>) -> Seq<char> {
    ("INSERT INTO "@ + table + " VALUES ("@ + row_values_text(
        values,
        values.len() as int,
    )).drop_last().drop_last().push(')')
}

/// Whether `s` is the text `word`.
fn text_is(s: &Vec<char>, word: &str) -> (b: bool)
    ensures
        b == (s@ == word@),
{
    let w = chars_of(word);
    if s.len() != w.len() {
        return false;
    }
    let mut i: usize = 0;
    while i < s.len()
        invariant
            i <= s.len(),
            s.len() == w.len(),
            w@ == word@,
            forall|k: int| 0 <= k < i ==> s@[k] == w@[k],
        decreases s.len() - i,
    {
        if s[i] != w[i] {
            return false;
        }
        i += 1;
    }
    assert(s@ =~= w@);
    true
}

/// Appends one value of a row as an insert statement holds it.
fn push_row_value(out: &mut String, value: &str)
    ensures
        final(out)@ == old(out)@ + row_value_text(value@),
{
    match parse_i64(value) {
        Some(i) => {
            push_signed_decimal(out, i);
        },
        None => {
            let chars = chars_of(value);
            if text_is(&chars, "true") {
                push_char(out, '1');
                assert(old(out)@.push('1') =~= old(out)@ + seq!['1']);
            } else if text_is(&chars, "false") {
                push_char(out, '0');
                assert(old(out)@.push('0') =~= old(out)@ + seq!['0']);
            } else {
                push_char(out, '\'');
                push_text(out, value);
                push_char(out, '\'');
                assert(out@ =~= old(out)@ + (seq!['\''] + value@ + seq!['\'']));
            }
        },
    }
}

/// The statement that inserts a row with `values` into `table`.
pub fn insert_row_query(table: &str, values: &[&str]) -> (query: String)
    ensures
        query@ == insert_row_text(table@, values@),
{
    proof {
        reveal_strlit(" VALUES (");
        reveal_strlit(" VALUES");
        assert(" VALUES ("@ =~= " VALUES"@.push(' ').push('('));
    }
    let mut query = String::new();
    push_text(&mut query, "INSERT INTO ");
    push_text(&mut query, table);
    push_text(&mut query, " VALUES");
    let ghost head = query@;
    let ghost start = "INSERT INTO "@ + table@ + " VALUES ("@;
    assert(start =~= head.push(' ').push('('));
    let count = values.len();
    if count == 0 {
        push_char(&mut query, ')');
        proof {
            let full = start + row_values_text(values@, 0);
            assert(full =~= head.push(' ').push('('));
            assert(full.drop_last().drop_last() =~= head);
        }
        return query;
    }
    push_char(&mut query, ' ');
    push_char(&mut query, '(');
    let mut i: usize = 0;
    while i < count - 1
        invariant
            i <= count - 1,
            count == values@.len(),
            count >= 1,
            query@ == start + row_values_text(values@, i as int),
        decreases count - 1 - i,
    {
        push_row_value(&mut query, values[i]);
        push_char(&mut query, ',');
        push_char(&mut query, ' ');
        i += 1;
        assert(query@ =~= start + row_values_text(values@, i as int));
    }
    push_row_value(&mut query, values[count - 1]);
    let ghost body = query@;
    push_char(&mut query, ')');
    proof {
        let full = start + row_values_text(values@, count as int);
        assert(full =~= body.push(',').push(' '));
        assert(full.drop_last().drop_last() =~= body);
    }
    query
}

/// The row with which a guild's settings start: the defaults, with the
/// guild's id in the first column.
pub open spec fn default_row_text(default_values: Seq<&str>, id: u64) -> Seq<Seq<char>> {
    Seq::new(
        default_values.len(),
        |i: int|
            if i == 0 {
                decimal(id as nat)
            } else {
                default_values[i]@
            },
    )
}

/// The row to insert for `where_id` where it has none yet: `default_values`
/// with the id in the place of the first. There is at least one value.
pub fn default_row<U: ValidID>(default_values: &[&str], where_id: &U) -> (row: Vec<String>)
    requires
        default_values@.len() >= 1,
    ensures
        texts(row@) == default_row_text(default_values@, where_id.spec_id()),
{
    let mut row: Vec<String> = Vec::new();
    row.push(where_id.vi_fmt());
    let mut i: usize = 1;
    while i < default_values.len()
        invariant
            1 <= i <= default_values.len(),
            row@.len() == i,
            row@[0]@ == decimal(where_id.spec_id() as nat),
            forall|k: int| 1 <= k < i ==> (#[trigger] row@[k])@ == default_values@[k]@,
        decreases default_values.len() - i,
    {
        let mut value = String::new();
        push_text(&mut value, default_values[i]);
        assert(value@ =~= default_values@[i as int]@);
        row.push(value);
        i += 1;
    }
    assert(texts(row@) =~= default_row_text(default_values@, where_id.spec_id()));
    row
}

/// The statement that reads one column of the row with a given `id` column.
pub open spec fn select_by_id_text(table: Seq<char>, column: Seq<char>, id: u64) -> Seq<char> {
    "SELECT "@ + column + " FROM "@ + table + " WHERE id = "@ + decimal(id as nat)
}

/// The statement that reads `column` of the row of `table` whose `id` is `id`.
pub fn select_by_id_query(table: &str, column: &str, id: u64) -> (query: String)
    ensures
        query@ == select_by_id_text(table@, column@, id),
{
    let mut query = String::new();
    push_text(&mut query, "SELECT ");
    push_text(&mut query, column);
    push_text(&mut query, " FROM ");
    push_text(&mut query, table);
    push_text(&mut query, " WHERE id = ");
    push_decimal(&mut query, id);
    assert(query@ =~= select_by_id_text(table@, column@, id));
    query
}

/// The statement that sets one column of the row with a given `id` column
/// to a text, in which every single quote is doubled.
pub open spec fn update_by_id_text(table: Seq<char>, column: Seq<char>, value: Seq<char>, id: u64) -> Seq<
    char,
> {
    "UPDATE "@ + table + " SET "@ + column + " = '"@ + scrubbed(value) + "' WHERE id = "@ + decimal(
        id as nat,
    )
}

/// The statement that sets `column` to `value` in the row of `table`
/// whose `id` is `id`.
pub fn update_by_id_query(table: &str, column: &str, value: &str, id: u64) -> (query: String)
    ensures
        query@ == update_by_id_text(table@, column@, value@, id),
{
    let mut query = String::new();
    push_text(&mut query, "UPDATE ");
    push_text(&mut query, table);
    push_text(&mut query, " SET ");
    push_text(&mut query, column);
    push_text(&mut query, " = '");
    push_scrubbed(&mut query, value);
    push_text(&mut query, "' WHERE id = ");
    push_decimal(&mut query, id);
    assert(query@ =~= update_by_id_text(table@, column@, value@, id));
    query
}

/// The statement that asks whether a row with a given `id` column exists.
pub open spec fn lookup_text(table: Seq<char>, id: u64) -> Seq<char> {
    "SELECT EXISTS(SELECT 1 FROM "@ + table + " WHERE id = "@ + decimal(id as nat) + ")"@
}

/// The statement that asks whether `table` has a row whose `id` is `id`.
pub fn lookup_query(table: &str, id: u64) -> (query: String)
    ensures
        query@ == lookup_text(table@, id),
{
    let mut query = String::new();
    push_text(&mut query, "SELECT EXISTS(SELECT 1 FROM ");
    push_text(&mut query, table);
    push_text(&mut query, " WHERE id = ");
    push_decimal(&mut query, id);
    push_text(&mut query, ")");
    assert(query@ =~= lookup_text(table@, id));
    query
}

/// The statement that gives a guild its first settings.
pub open spec fn first_settings_text(id: u64) -> Seq<char> {
    "INSERT INTO guild_settings VALUES ("@ + decimal(id as nat) + ", '!', '0')"@
}

/// What to run after a lookup in `table` found no row for `id`: the
/// settings table gets a row with the defaults, any other table nothing.
pub fn missing_row_query(table: &str, id: u64) -> (query: Option<String>)
    ensures
        match query {
            Some(q) => table@ == "guild_settings"@ && q@ == first_settings_text(id),
            None => table@ != "guild_settings"@,
        },
{
    let chars = chars_of(table);
    if text_is(&chars, "guild_settings") {
        let mut query = String::new();
        push_text(&mut query, "INSERT INTO guild_settings VALUES (");
        push_decimal(&mut query, id);
        push_text(&mut query, ", '!', '0')");
        assert(query@ =~= first_settings_text(id));
        Some(query)
    } else {
        None
    }
}

/// The DJ role that a settings row names: none where the column holds 0.
pub open spec fn spec_dj_role_of(dj_role_id: i64) -> Option<u64> {
    if dj_role_id == 0 {
        None
    } else {
        Some(crate::rows::reinterpreted(dj_role_id))
    }
}

/// The DJ role that a settings row names.
pub fn dj_role_of(dj_role_id: i64) -> (role: Option<u64>)
    ensures
        role == spec_dj_role_of(dj_role_id),
{
    if dj_role_id == 0 {
        None
    } else {
        Some(crate::rows::reinterpret(dj_role_id))
    }
}

} // verus!
