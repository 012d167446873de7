//! Rules of the client of the key-value persistency service.
//!
//! The service is reached over the network; what is decided before a
//! request leaves and after a reply arrives is decided here: which keys are
//! acceptable, how a stored value reads as text, what a reply means, and how
//! often a failed connection is tried again.

use vstd::prelude::*;
use vstd::string::*;

verus! {

/// A key with the text of its value.
#[derive(Debug, Clone)]
pub struct KV {
    pub key: String,
    pub value: String,
}

impl View for KV {
    type V = (Seq<char>, Seq<char>);

    open spec fn view(&self) -> (Seq<char>, Seq<char>) {
        (self.key@, self.value@)
    }
}

/// Why a persistency operation failed.
#[derive(Debug, Clone)]
pub enum PersistencyError {
    /// The connection could not be made; the text is the transport's.
    Transport(String),
    /// The service answered with a failure status; the text is its.
    Grpc(String),
    /// A stored value cannot be read as text.
    Conversion(String),
    /// The key holds no value.
    NotFound,
    /// The request was not acceptable.
    InvalidArgs(String),
}

impl PersistencyError {
    /// The text the error prints as.
    pub open spec fn spec_message(&self) -> Seq<char> {
        match self {
            PersistencyError::Transport(detail) => "Transport error: "@ + detail@,
            PersistencyError::Grpc(detail) => "gRPC error: "@ + detail@,
            PersistencyError::Conversion(detail) => "Conversion error: "@ + detail@,
            PersistencyError::NotFound => "Key not found"@,
            PersistencyError::InvalidArgs(detail) => "Invalid arguments: "@ + detail@,
        }
    }

    /// The text the error prints as.
    pub fn message(&self) -> (text: String)
        ensures
            text@ == self.spec_message(),
    {
        match self {
            PersistencyError::Transport(detail) => {
                let mut text = String::from_str("Transport error: ");
                text.append(detail.as_str());
                text
            },
            PersistencyError::Grpc(detail) => {
                let mut text = String::from_str("gRPC error: ");
                text.append(detail.as_str());
                text
            },
            PersistencyError::Conversion(detail) => {
                let mut text = String::from_str("Conversion error: ");
                text.append(detail.as_str());
                text
            },
            PersistencyError::NotFound => String::from_str("Key not found"),
            PersistencyError::InvalidArgs(detail) => {
                let mut text = String::from_str("Invalid arguments: ");
                text.append(detail.as_str());
                text
            },
        }
    }
}

/// Longest acceptable key, in bytes.
pub const MAX_KEY_LENGTH: usize = 1024;

/// The port the persistency service listens on.
pub const PERSISTENCY_PORT: u16 = 47007;

/// Whether a character may not occur in a key.
pub open spec fn spec_is_forbidden_char(c: char) -> bool {
    c == '<' || c == '>' || c == '?' || c == '{' || c == '}'
}

/// Whether a character may not occur in a key.
pub fn is_forbidden_char(c: char) -> (forbidden: bool)
    ensures
        forbidden == spec_is_forbidden_char(c),
{
    c == '<' || c == '>' || c == '?' || c == '{' || c == '}'
}

/// Whether some character of the key is forbidden.
pub open spec fn spec_has_forbidden_char(key: Seq<char>) -> bool {
    exists|i: int| 0 <= i < key.len() && spec_is_forbidden_char(#[trigger] key[i])
}

/// Whether some character of the key is forbidden.
pub fn has_forbidden_char(key: &str) -> (found: bool)
    ensures
        found == spec_has_forbidden_char(key@),
{
    let length: usize = key.unicode_len();
    let mut index: usize = 0;
    while index < length
        invariant
            length == key@.len(),
            index <= length,
            forall|j: int| 0 <= j < index ==> !spec_is_forbidden_char(#[trigger] key@[j]),
        decreases length - index,
    {
        if is_forbidden_char(key.get_char(index)) {
            return true;
        }
        index = index + 1;
    }
    false
}

/// What is wrong with a key.
#[derive(Clone, Copy, Debug, PartialEq, Eq, Structural)]
pub enum KeyFault {
    /// The key is empty where a key is needed.
    Empty,
    /// The key is longer than [`MAX_KEY_LENGTH`] bytes.
    TooLong,
    /// The key holds one of `<`, `>`, `?`, `{`, `}`.
    ForbiddenCharacter,
}

impl KeyFault {
    /// The text the fault is reported with.
    pub open spec fn spec_describe(self) -> Seq<char> {
        match self {
            KeyFault::Empty => "Key cannot be empty"@,
            KeyFault::TooLong => "Key exceeds maximum allowed length of 1024 characters"@,
            KeyFault::ForbiddenCharacter => "Key contains invalid special characters"@,
        }
    }

    /// The text the fault is reported with.
    pub fn describe(self) -> (text: &'static str)
        ensures
            text@ == self.spec_describe(),
    {
        match self {
            KeyFault::Empty => "Key cannot be empty",
            KeyFault::TooLong => "Key exceeds maximum allowed length of 1024 characters",
            KeyFault::ForbiddenCharacter => "Key contains invalid special characters",
        }
    }
}

/// The first fault of a key, if it has one. Emptiness counts only where
/// `reject_empty` is set, and is looked for first; then the length in
/// bytes; then the forbidden characters.
pub open spec fn spec_key_fault(key: &str, reject_empty: bool) -> Option<KeyFault> {
    if reject_empty && key@.len() == 0 {
        Some(KeyFault::Empty)
    } else if key.spec_bytes().len() > MAX_KEY_LENGTH {
        Some(KeyFault::TooLong)
    } else if spec_has_forbidden_char(key@) {
        Some(KeyFault::ForbiddenCharacter)
    } else {
        None
    }
}

/// The first fault of a key, if it has one.
pub fn key_fault(key: &str, reject_empty: bool) -> (fault: Option<KeyFault>)
    ensures
        fault == spec_key_fault(key, reject_empty),
{
    if reject_empty && key.is_empty() {
        Some(KeyFault::Empty)
    } else if key.as_bytes().len() > MAX_KEY_LENGTH {
        Some(KeyFault::TooLong)
    } else if has_forbidden_char(key) {
        Some(KeyFault::ForbiddenCharacter)
    } else {
        None
    }
}

/// Accepts a key or says why not. Reading needs a key that is not empty;
/// writing and deleting leave that to the service.
pub fn validate_key(key: &str, reject_empty: bool) -> (verdict: Result<(), PersistencyError>)
    ensures
        match verdict {
            Ok(_) => spec_key_fault(key, reject_empty) is None,
            Err(PersistencyError::InvalidArgs(text)) => spec_key_fault(key, reject_empty) is Some
                && text@ == spec_key_fault(key, reject_empty)->Some_0.spec_describe(),
            Err(_) => false,
        },
{
    match key_fault(key, reject_empty) {
        None => Ok(()),
        Some(fault) => Err(PersistencyError::InvalidArgs(String::from_str(fault.describe()))),
    }
}

/// The address of the persistency service on a host.
pub fn service_address(host_ip: &str) -> (address: String)
    ensures
        address@ == host_ip@ + ":47007"@,
{
    let mut address = String::from_str(host_ip);
    address.append(":47007");
    address
}

/// The character that stands for a digit.
pub open spec fn spec_digit_char(digit: int) -> char {
    if digit == 0 {
        '0'
    } else if digit == 1 {
        '1'
    } else if digit == 2 {
        '2'
    } else if digit == 3 {
        '3'
    } else if digit == 4 {
        '4'
    } else if digit == 5 {
        '5'
    } else if digit == 6 {
        '6'
    } else if digit == 7 {
        '7'
    } else if digit == 8 {
        '8'
    } else {
        '9'
    }
}

/// The decimal digits of a natural number, without leading zeros.
pub open spec fn spec_digits(value: nat) -> Seq<char>
    decreases value,
{
    if value < 10 {
        seq![spec_digit_char(value as int)]
    } else {
        spec_digits(value / 10).push(spec_digit_char((value % 10) as int))
    }
}

/// The decimal text of an integer: a minus sign for negative values, then
/// the digits.
pub open spec fn spec_decimal(value: int) -> Seq<char> {
    if value < 0 {
        seq!['-'] + spec_digits((-value) as nat)
    } else {
        spec_digits(value as nat)
    }
}

/// Appends the decimal digits of `value` to `text`.
fn append_digits(text: &mut String, value: u128)
    ensures
        final(text)@ == old(text)@ + spec_digits(value as nat),
    decreases value,
{
    if value >= 10 {
        append_digits(text, value / 10);
    }
    let digit: u128 = value % 10;
    let glyph: &'static str = if digit == 0 {
        "0"
    } else if digit == 1 {
        "1"
    } else if digit == 2 {
        "2"
    } else if digit == 3 {
        "3"
    } else if digit == 4 {
        "4"
    } else if digit == 5 {
        "5"
    } else if digit == 6 {
        "6"
    } else if digit == 7 {
        "7"
    } else if digit == 8 {
        "8"
    } else {
        "9"
    };
    proof {
        reveal_strlit("0");
        reveal_strlit("1");
        reveal_strlit("2");
        reveal_strlit("3");
        reveal_strlit("4");
        reveal_strlit("5");
        reveal_strlit("6");
        reveal_strlit("7");
        reveal_strlit("8");
        reveal_strlit("9");
        assert(glyph@ =~= seq![spec_digit_char(digit as int)]);
    }
    text.append(glyph);
    proof {
        if value >= 10 {
            assert(final(text)@ =~= old(text)@ + spec_digits(value as nat));
        } else {
            assert(final(text)@ =~= old(text)@ + spec_digits(value as nat));
        }
    }
}

/// The decimal text of an integer.
pub fn decimal(value: i128) -> (text: String)
    ensures
        text@ == spec_decimal(value as int),
{
    let mut text = String::new();
    if value < 0 {
        proof {
            reveal_strlit("-");
        }
        text.append("-");
        let magnitude: u128 = if value == i128::MIN {
            0x8000_0000_0000_0000_0000_0000_0000_0000u128
        } else {
            (-value) as u128
        };
        append_digits(&mut text, magnitude);
        assert(text@ =~= spec_decimal(value as int));
    } else {
        append_digits(&mut text, value as u128);
        assert(text@ =~= spec_decimal(value as int));
    }
    text
}

/// One stored value, as the service hands it out.
#[derive(Debug, Clone)]
pub enum Value {
    StringValue(String),
    I32Value(i32),
    U32Value(u32),
    I64Value(i64),
    U64Value(u64),
    /// A 64-bit float, carried as the text it prints as.
    F64Value(String),
    BooleanValue(bool),
    NullValue,
    /// A list of values; its items are of no use to this client.
    ArrayValue,
    /// A map of values; its entries are of no use to this client.
    ObjectValue,
}

/// The envelope of a stored value; the value may be missing from it.
#[derive(Debug, Clone)]
pub struct KvsValue {
    pub value: Option<Value>,
}

/// The text a stored value reads as, where it has one: strings as they
/// are, numbers in decimal, booleans as `true` and `false`, null as `null`.
pub open spec fn spec_value_text(value: KvsValue) -> Option<Seq<char>> {
    match value.value {
        Some(Value::StringValue(text)) => Some(text@),
        Some(Value::I32Value(number)) => Some(spec_decimal(number as int)),
        Some(Value::U32Value(number)) => Some(spec_decimal(number as int)),
        Some(Value::I64Value(number)) => Some(spec_decimal(number as int)),
        Some(Value::U64Value(number)) => Some(spec_decimal(number as int)),
        Some(Value::F64Value(rendered)) => Some(rendered@),
        Some(Value::BooleanValue(flag)) => Some(
            if flag {
                "true"@
            } else {
                "false"@
            },
        ),
        Some(Value::NullValue) => Some("null"@),
        Some(Value::ArrayValue) => None,
        Some(Value::ObjectValue) => None,
        None => None,
    }
}

/// Why a stored value has no text.
pub open spec fn spec_conversion_fault(value: KvsValue) -> Seq<char> {
    match value.value {
        None => "Empty value"@,
        _ => "Complex types not supported in string conversion"@,
    }
}

/// Wraps a text as a stored string value.
pub fn string_to_kvs_value(value: &str) -> (wrapped: KvsValue)
    ensures
        match wrapped.value {
            Some(Value::StringValue(text)) => text@ == value@,
            _ => false,
        },
        spec_value_text(wrapped) == Some(value@),
{
    KvsValue { value: Some(Value::StringValue(String::from_str(value))) }
}

/// Reads a stored value as text. Lists, maps and an empty envelope have
/// none and give a conversion error.
pub fn kvs_value_to_string(value: &KvsValue) -> (text: Result<String, PersistencyError>)
    ensures
        match text {
            Ok(read) => spec_value_text(*value) == Some(read@),
            Err(PersistencyError::Conversion(why)) => spec_value_text(*value) is None && why@
                == spec_conversion_fault(*value),
            Err(_) => false,
        },
{
    match &value.value {
        Some(Value::StringValue(text)) => Ok(text.clone()),
        Some(Value::I32Value(number)) => Ok(decimal(*number as i128)),
        Some(Value::U32Value(number)) => Ok(decimal(*number as i128)),
        Some(Value::I64Value(number)) => Ok(decimal(*number as i128)),
        Some(Value::U64Value(number)) => Ok(decimal(*number as i128)),
        Some(Value::F64Value(rendered)) => Ok(rendered.clone()),
        Some(Value::BooleanValue(flag)) => Ok(
            String::from_str(
                if *flag {
                    "true"
                } else {
                    "false"
                },
            ),
        ),
        Some(Value::NullValue) => Ok(String::from_str("null")),
        Some(Value::ArrayValue) => Err(
            PersistencyError::Conversion(
                String::from_str("Complex types not supported in string conversion"),
            ),
        ),
        Some(Value::ObjectValue) => Err(
            PersistencyError::Conversion(
                String::from_str("Complex types not supported in string conversion"),
            ),
        ),
        None => Err(PersistencyError::Conversion(String::from_str("Empty value"))),
    }
}

/// What a reply without a payload means: success, or the service's
/// complaint as an argument error.
pub fn interpret_ack(success: bool, error_message: String) -> (outcome: Result<
    (),
    PersistencyError,
>)
    ensures
        match outcome {
            Ok(_) => success,
            Err(PersistencyError::InvalidArgs(text)) => !success && text@ == error_message@,
            Err(_) => false,
        },
{
    if success {
        Ok(())
    } else {
        Err(PersistencyError::InvalidArgs(error_message))
    }
}

/// What the reply to a read means: the value's text when the service
/// succeeded and sent a value, not-found in every other case.
pub fn interpret_get(success: bool, value: Option<KvsValue>) -> (outcome: Result<
    String,
    PersistencyError,
>)
    ensures
        match outcome {
            Ok(read) => success && value is Some && spec_value_text(value->Some_0) == Some(read@),
            Err(PersistencyError::NotFound) => !success || value is None,
            Err(PersistencyError::Conversion(why)) => success && value is Some && spec_value_text(
                value->Some_0,
            ) is None && why@ == spec_conversion_fault(value->Some_0),
            Err(_) => false,
        },
{
    if success {
        match value {
            Some(stored) => kvs_value_to_string(&stored),
            None => Err(PersistencyError::NotFound),
        }
    } else {
        Err(PersistencyError::NotFound)
    }
}

/// The pairs of a listing that read as text, in the order of the listing;
/// entries whose value has no text are left out.
pub open spec fn spec_readable_pairs(entries: Seq<(String, KvsValue)>) -> Seq<
    (Seq<char>, Seq<char>),
>
    decreases entries.len(),
{
    if entries.len() == 0 {
        Seq::empty()
    } else {
        let earlier = spec_readable_pairs(entries.drop_last());
        match spec_value_text(entries.last().1) {
            Some(text) => earlier.push((entries.last().0@, text)),
            None => earlier,
        }
    }
}

/// The views of a list of pairs.
pub open spec fn spec_pair_views(pairs: Seq<KV>) -> Seq<(Seq<char>, Seq<char>)> {
    Seq::new(pairs.len(), |i: int| pairs[i]@)
}

/// Keeps the entries of a listing that read as text.
pub fn collect_pairs(entries: Vec<(String, KvsValue)>) -> (pairs: Vec<KV>)
    ensures
        spec_pair_views(pairs@) == spec_readable_pairs(entries@),
        pairs.len() <= entries.len(),
{
    let mut pairs: Vec<KV> = Vec::new();
    let mut index: usize = 0;
    assert(entries@.take(0) =~= Seq::empty());
    while index < entries.len()
        invariant
            index <= entries.len(),
            pairs.len() <= index,
            spec_pair_views(pairs@) =~= spec_readable_pairs(entries@.take(index as int)),
        decreases entries.len() - index,
    {
        let ghost before = pairs@;
        let ghost prefix = entries@.take(index as int + 1);
        assert(prefix.drop_last() =~= entries@.take(index as int));
        assert(prefix.last() == entries@[index as int]);
        match kvs_value_to_string(&entries[index].1) {
            Ok(text) => {
                let pair = KV { key: entries[index].0.clone(), value: text };
                pairs.push(pair);
                assert(spec_pair_views(pairs@) =~= spec_pair_views(before).push(
                    (entries@[index as int].0@, text@),
                ));
            },
            Err(_) => {},
        }
        index = index + 1;
    }
    assert(entries@.take(index as int) =~= entries@);
    pairs
}

/// What the reply to a listing means: the readable pairs on success, the
/// service's complaint as an argument error otherwise.
pub fn interpret_listing(
    success: bool,
    entries: Vec<(String, KvsValue)>,
    error_message: String,
) -> (outcome: Result<Vec<KV>, PersistencyError>)
    ensures
        match outcome {
            Ok(pairs) => success && spec_pair_views(pairs@) == spec_readable_pairs(entries@),
            Err(PersistencyError::InvalidArgs(text)) => !success && text@ == error_message@,
            Err(_) => false,
        },
{
    if success {
        Ok(collect_pairs(entries))
    } else {
        Err(PersistencyError::InvalidArgs(error_message))
    }
}

/// Whether the bytes of `prefix` open the bytes of `key`.
pub open spec fn spec_has_prefix(key: &str, prefix: &str) -> bool {
    prefix.spec_bytes().is_prefix_of(key.spec_bytes())
}

/// Whether `key` starts with `prefix`.
pub fn has_prefix(key: &str, prefix: &str) -> (yes: bool)
    ensures
        yes == spec_has_prefix(key, prefix),
{
    let key_bytes = key.as_bytes();
    let prefix_bytes = prefix.as_bytes();
    if prefix_bytes.len() > key_bytes.len() {
        return false;
    }
    let mut index: usize = 0;
    while index < prefix_bytes.len()
        invariant
            key_bytes@ == key.spec_bytes(),
            prefix_bytes@ == prefix.spec_bytes(),
            prefix_bytes@.len() <= key_bytes@.len(),
            index <= prefix_bytes@.len(),
            forall|j: int| 0 <= j < index ==> key_bytes@[j] == prefix_bytes@[j],
        decreases prefix_bytes@.len() - index,
    {
        if key_bytes[index] != prefix_bytes[index] {
            assert(key.spec_bytes()[index as int] != prefix.spec_bytes()[index as int]);
            return false;
        }
        index = index + 1;
    }
    assert(prefix.spec_bytes() =~= key.spec_bytes().subrange(0, prefix.spec_bytes().len() as int));
    true
}

/// How many times a connection is tried before giving up.
pub const MAX_RETRIES: u32 = 10;

/// How long to wait between two tries, in milliseconds.
pub const RETRY_DELAY_MS: u64 = 1000;

/// What to do after a try to connect has failed.
#[derive(Clone, Copy, Debug, PartialEq, Eq, Structural)]
pub enum RetryStep {
    /// Wait this many milliseconds, then try again.
    RetryAfter(u64),
    /// Stop trying and report the last failure.
    GiveUp,
}

/// The decision after the try numbered `attempt`, counted from zero, has failed.
pub open spec fn spec_after_failed_attempt(attempt: u32) -> RetryStep {
    if attempt + 1 < MAX_RETRIES {
        RetryStep::RetryAfter(RETRY_DELAY_MS)
    } else {
        RetryStep::GiveUp
    }
}

/// Decides what follows the failure of the try numbered `attempt`, counted
/// from zero: another try after a second, up to ten tries in all.
pub fn after_failed_attempt(attempt: u32) -> (step: RetryStep)
    ensures
        step == spec_after_failed_attempt(attempt),
        step is GiveUp <==> attempt + 1 >= MAX_RETRIES,
{
    if attempt < MAX_RETRIES - 1 {
        RetryStep::RetryAfter(RETRY_DELAY_MS)
    } else {
        RetryStep::GiveUp
    }
}

/// The error to report once every try has failed: the last failure, or an
/// argument error when none was recorded.
pub fn connection_failure(last_error: Option<PersistencyError>) -> (error: PersistencyError)
    ensures
        match last_error {
            Some(last) => error == last,
            None => match error {
                PersistencyError::InvalidArgs(text) => text@
                    == "Failed to connect to persistency service after multiple attempts"@,
                _ => false,
            },
        },
{
    match last_error {
        Some(last) => last,
        None => PersistencyError::InvalidArgs(
            String::from_str("Failed to connect to persistency service after multiple attempts"),
        ),
    }
}

} // verus!
