use vstd::prelude::*;

verus! {

#[verifier::external_type_specification]
#[verifier::external_body]
pub struct ExClientConfig(rdkafka::ClientConfig);

/// The settings that a client configuration holds, key to value.
pub uninterp spec fn config_entries(c: rdkafka::ClientConfig) -> Map<Seq<char>, Seq<char>>;

/// Relies on rdkafka's `ClientConfig::new`: a configuration with no settings.
#[verifier::external_body]
fn empty_config() -> (r: rdkafka::ClientConfig)
    ensures
        config_entries(r) =~= Map::empty(),
{
    rdkafka::ClientConfig::new()
}

/// Relies on rdkafka's `ClientConfig::set`: it inserts `value` under `key`,
/// replacing any earlier value, and leaves the other settings as they were.
#[verifier::external_body]
fn set_entry(c: &mut rdkafka::ClientConfig, key: &str, value: &str)
    ensures
        config_entries(*final(c)) == config_entries(*old(c)).insert(key@, value@),
{
    c.set(key, value);
}

/// A publisher's settings: the broker address, and no buffering delay so
/// that each record is sent at once.
pub open spec fn producer_settings(servers: Seq<char>) -> Map<Seq<char>, Seq<char>> {
    map![
        "bootstrap.servers"@ => servers,
        "queue.buffering.max.ms"@ => "0"@,
    ]
}

/// A subscriber's settings: the broker address, no end-of-partition
/// notices, and the subscription group it joins.
pub open spec fn consumer_settings(servers: Seq<char>, group_id: Seq<char>) -> Map<
    Seq<char>,
    Seq<char>,
> {
    map![
        "bootstrap.servers"@ => servers,
        "enable.partition.eof"@ => "false"@,
        "group.id"@ => group_id,
    ]
}

/// The configuration of a publisher bound to `servers`.
pub fn producer_config(servers: &str) -> (r: rdkafka::ClientConfig)
    ensures
        config_entries(r) == producer_settings(servers@),
{
    let mut c = empty_config();
    set_entry(&mut c, "bootstrap.servers", servers);
    set_entry(&mut c, "queue.buffering.max.ms", "0");
    assert(config_entries(c) =~= producer_settings(servers@));
    c
}

/// The configuration of a subscriber bound to `servers` in group `group_id`.
pub fn consumer_config(servers: &str, group_id: &str) -> (r: rdkafka::ClientConfig)
    ensures
        config_entries(r) == consumer_settings(servers@, group_id@),
{
    let mut c = empty_config();
    set_entry(&mut c, "bootstrap.servers", servers);
    set_entry(&mut c, "enable.partition.eof", "false");
    set_entry(&mut c, "group.id", group_id);
    assert(config_entries(c) =~= consumer_settings(servers@, group_id@));
    c
}

/// A digit of lower-case hexadecimal text.
pub open spec fn is_lower_hex_digit(c: char) -> bool {
    ('0' <= c && c <= '9') || ('a' <= c && c <= 'f')
}

/// The text of a random (version 4) UUID: 36 characters, lower-case
/// hexadecimal digits in groups of 8, 4, 4, 4 and 12 joined by hyphens, the
/// first digit of the third group being the version, 4.
pub open spec fn is_session_id(s: Seq<char>) -> bool {
    &&& s.len() == 36
    &&& forall|i: int|
        0 <= i < 36 ==> if i == 8 || i == 13 || i == 18 || i == 23 {
            s[i] == '-'
        } else {
            is_lower_hex_digit(s[i])
        }
    &&& s[14] == '4'
}

/// Relies on uuid's `Uuid::new_v4`, which draws a random version 4 UUID, and
/// on its `Display`, which writes it as lower-case hyphenated text.
#[verifier::external_body]
fn random_session_id() -> (r: String)
    ensures
        is_session_id(r@),
{
    uuid::Uuid::new_v4().to_string()
}

/// The subscription group of the session identified by `session_id`.
pub open spec fn group_id_of(session_id: Seq<char>) -> Seq<char> {
    "chat-"@ + session_id
}

/// The name of the subscription group of the session `session_id`.
pub fn group_id(session_id: &str) -> (r: String)
    ensures
        r@ == group_id_of(session_id@),
{
    let mut g = String::from_str("chat-");
    g.append(session_id);
    g
}

/// A subscription group name of its own for a new session, formed from a
/// freshly drawn random identifier.
pub fn new_group_id() -> (r: String)
    ensures
        r@.len() == 41,
        is_session_id(r@.skip(5)),
        r@ == group_id_of(r@.skip(5)),
{
    let id = random_session_id();
    let g = group_id(id.as_str());
    proof {
        reveal_strlit("chat-");
        assert(g@.skip(5) =~= id@);
    }
    g
}

} // verus!
