use vstd::prelude::*;

verus! {

/// The name under which the service presents itself.
pub const SERVICE_NAME: &'static str = "Parami Centre Exam System";

/// The file of variables read when no other is named.
pub const DEFAULT_CONFIG_FILE: &'static str = ".env";

/// Name of the variable that holds the address the server listens on.
pub const SERVER_ADDRESS: &'static str = "SERVER_ADDRESS";
/// Name of the variable that holds the port the server listens on.
pub const SERVER_PORT: &'static str = "SERVER_PORT";
/// Name of the variable that holds the URL of the SurrealDB server.
pub const SURREALDB_URL: &'static str = "SURREALDB_URL";
/// Name of the variable that holds the database user's name.
pub const SURREALDB_USERNAME: &'static str = "SURREALDB_USERNAME";
/// Name of the variable that holds the database user's password.
pub const SURREALDB_PASSWORD: &'static str = "SURREALDB_PASSWORD";
/// Name of the variable that holds the database namespace.
pub const SURREALDB_NAMESPACE: &'static str = "SURREALDB_NAMESPACE";
/// Name of the variable that holds the database name.
pub const SURREALDB_DBNAME: &'static str = "SURREALDB_DBNAME";

/// The value of the first variable of `env` whose name is `key`.
pub open spec fn env_lookup(env: Seq<(String, String)>, key: Seq<char>) -> Option<Seq<char>>
    decreases env.len(),
{
    if env.len() == 0 {
        None
    } else if env[0].0@ == key {
        Some(env[0].1@)
    } else {
        env_lookup(env.drop_first(), key)
    }
}

/// The lookup gives the value of the first variable of that name, unchanged,
/// and nothing when no variable has that name.
pub proof fn lemma_env_lookup_first(env: Seq<(String, String)>, key: Seq<char>, i: int)
    requires
        0 <= i < env.len(),
        env[i].0@ == key,
        forall|j: int| 0 <= j < i ==> (#[trigger] env[j]).0@ != key,
    ensures
        env_lookup(env, key) == Some(env[i].1@),
    decreases i,
{
    if i > 0 {
        let rest = env.drop_first();
        assert forall|j: int| 0 <= j < i - 1 implies (#[trigger] rest[j]).0@ != key by {
            assert(rest[j] == env[j + 1]);
        }
        assert(env[0].0@ != key);
        lemma_env_lookup_first(rest, key, i - 1);
    }
}

/// A name that no variable has is not found.
pub proof fn lemma_env_lookup_absent(env: Seq<(String, String)>, key: Seq<char>)
    requires
        forall|j: int| 0 <= j < env.len() ==> (#[trigger] env[j]).0@ != key,
    ensures
        env_lookup(env, key) is None,
    decreases env.len(),
{
    if env.len() > 0 {
        let rest = env.drop_first();
        assert forall|j: int| 0 <= j < rest.len() implies (#[trigger] rest[j]).0@ != key by {
            assert(rest[j] == env[j + 1]);
        }
        assert(env[0].0@ != key);
        lemma_env_lookup_absent(rest, key);
    }
}

/// Looks `key` up among the variables `env`, the first one of that name
/// winning.
pub fn lookup_var(env: &Vec<(String, String)>, key: &str) -> (r: Option<String>)
    ensures
        match r {
            Some(v) => env_lookup(env@, key@) == Some(v@),
            None => env_lookup(env@, key@) is None,
        },
{
    let key_string = key.to_owned();
    let mut i: usize = 0;
    assert(env@.skip(0) =~= env@);
    while i < env.len()
        invariant
            0 <= i <= env.len(),
            key_string@ == key@,
            env_lookup(env@, key@) == env_lookup(env@.skip(i as int), key@),
        decreases env.len() - i,
    {
        assert(env@.skip(i as int).drop_first() =~= env@.skip(i + 1));
        if env[i].0 == key_string {
            return Some(env[i].1.clone());
        }
        i = i + 1;
    }
    None
}


/// The settings of the server and of its database.
pub struct EnvConfig {
    pub server_address: String,
    pub server_port: String,
    pub surrealdb_url: String,
    pub surrealdb_username: String,
    pub surrealdb_password: String,
    pub surrealdb_namespace: String,
    pub surrealdb_database: String,
}

/// The names of the variables that the configuration needs, in the order in
/// which they are read.
pub open spec fn config_var_names() -> Seq<Seq<char>> {
    seq![
        SERVER_ADDRESS@,
        SERVER_PORT@,
        SURREALDB_URL@,
        SURREALDB_USERNAME@,
        SURREALDB_PASSWORD@,
        SURREALDB_NAMESPACE@,
        SURREALDB_DBNAME@,
    ]
}

/// The first of `names` that no variable of `env` sets.
pub open spec fn first_unset(env: Seq<(String, String)>, names: Seq<Seq<char>>) -> Option<Seq<char>>
    decreases names.len(),
{
    if names.len() == 0 {
        None
    } else if env_lookup(env, names[0]) is None {
        Some(names[0])
    } else {
        first_unset(env, names.drop_first())
    }
}

/// The message for a variable `name` that the environment does not set.
pub open spec fn unset_message(name: Seq<char>) -> Seq<char> {
    name + " is not set in the .env file"@
}

/// The message for a `.env` file that could not be loaded, with the loader's
/// own message `reason`.
pub open spec fn load_failure_message(reason: Seq<char>) -> Seq<char> {
    "Failed to load .env file: "@ + reason
}

/// The value that `env` gives the variable `name`, where it gives one.
pub open spec fn env_value(env: Seq<(String, String)>, name: Seq<char>) -> Seq<char> {
    env_lookup(env, name).unwrap()
}

fn unset_error(name: &str) -> (e: String)
    ensures
        e@ == unset_message(name@),
{
    let s = name.to_owned();
    s.concat(" is not set in the .env file")
}

fn load_error(reason: String) -> (e: String)
    ensures
        e@ == load_failure_message(reason@),
{
    let s = String::from_str("Failed to load .env file: ");
    s.concat(reason.as_str())
}

impl EnvConfig {
    /// Builds the configuration from the outcome of loading the `.env` file
    /// and from the variables `env` of the environment after that load.
    ///
    /// A failed load gives its message; else each of the seven variables must
    /// be set, and the first that is not gives the error that names it.
    pub fn new(loaded: Result<(), String>, env: &Vec<(String, String)>) -> (r: Result<EnvConfig, String>)
        ensures
            loaded matches Err(reason) ==> r matches Err(e) && e@ == load_failure_message(reason@),
            loaded is Ok ==> (r is Ok <==> first_unset(env@, config_var_names()) is None),
            loaded is Ok && r is Err ==> r->Err_0@ == unset_message(first_unset(env@, config_var_names())->0),
            r matches Ok(c) ==> {
                &&& c.server_address@ == env_value(env@, SERVER_ADDRESS@)
                &&& c.server_port@ == env_value(env@, SERVER_PORT@)
                &&& c.surrealdb_url@ == env_value(env@, SURREALDB_URL@)
                &&& c.surrealdb_username@ == env_value(env@, SURREALDB_USERNAME@)
                &&& c.surrealdb_password@ == env_value(env@, SURREALDB_PASSWORD@)
                &&& c.surrealdb_namespace@ == env_value(env@, SURREALDB_NAMESPACE@)
                &&& c.surrealdb_database@ == env_value(env@, SURREALDB_DBNAME@)
            },
    {
        if let Err(reason) = loaded {
            return Err(load_error(reason));
        }
        proof {
            reveal_with_fuel(first_unset, 8);
        }
        let server_address = match lookup_var(env, SERVER_ADDRESS) {
            Some(v) => v,
            None => return Err(unset_error(SERVER_ADDRESS)),
        };
        let server_port = match lookup_var(env, SERVER_PORT) {
            Some(v) => v,
            None => return Err(unset_error(SERVER_PORT)),
        };
        let surrealdb_url = match lookup_var(env, SURREALDB_URL) {
            Some(v) => v,
            None => return Err(unset_error(SURREALDB_URL)),
        };
        let surrealdb_username = match lookup_var(env, SURREALDB_USERNAME) {
            Some(v) => v,
            None => return Err(unset_error(SURREALDB_USERNAME)),
        };
        let surrealdb_password = match lookup_var(env, SURREALDB_PASSWORD) {
            Some(v) => v,
            None => return Err(unset_error(SURREALDB_PASSWORD)),
        };
        let surrealdb_namespace = match lookup_var(env, SURREALDB_NAMESPACE) {
            Some(v) => v,
            None => return Err(unset_error(SURREALDB_NAMESPACE)),
        };
        let surrealdb_database = match lookup_var(env, SURREALDB_DBNAME) {
            Some(v) => v,
            None => return Err(unset_error(SURREALDB_DBNAME)),
        };
        Ok(EnvConfig {
            server_address,
            server_port,
            surrealdb_url,
            surrealdb_username,
            surrealdb_password,
            surrealdb_namespace,
            surrealdb_database,
        })
    }
}


/// Whether `c` is one of the decimal digits `0` to `9`.
pub open spec fn is_digit(c: char) -> bool {
    '0' as int <= c as int <= '9' as int
}

/// Whether every character of `s` is a decimal digit.
pub open spec fn all_digits(s: Seq<char>) -> bool {
    forall|i: int| 0 <= i < s.len() ==> is_digit(#[trigger] s[i])
}

/// The number that the decimal digits `s` write, most significant first.
pub open spec fn decimal_value(s: Seq<char>) -> nat
    decreases s.len(),
{
    if s.len() == 0 {
        0
    } else {
        decimal_value(s.drop_last()) * 10 + (s.last() as int - '0' as int) as nat
    }
}

/// What reading `s` as a `u16` gives, as Rust's `str::parse::<u16>` reads it:
/// an optional `+`, then one or more decimal digits whose value is at most
/// `u16::MAX`; anything else is refused.
pub open spec fn parse_u16_spec(s: Seq<char>) -> Option<u16> {
    let digits = if s.len() > 0 && s[0] == '+' { s.drop_first() } else { s };
    if digits.len() > 0 && all_digits(digits) && decimal_value(digits) <= u16::MAX {
        Some(decimal_value(digits) as u16)
    } else {
        None
    }
}

/// The decimal digits of `n`, without leading zeros.
pub open spec fn decimal_digits(n: nat) -> Seq<char>
    decreases n,
{
    if n < 10 {
        seq![(n + '0' as int) as char]
    } else {
        decimal_digits(n / 10).push(((n % 10) + '0' as int) as char)
    }
}

/// Reads `s` as a port number, as `str::parse::<u16>` does.
pub fn parse_port(s: &str) -> (r: Option<u16>)
    ensures
        r == parse_u16_spec(s@),
{
    let n = s.unicode_len();
    let mut start: usize = 0;
    if n > 0 && s.get_char(0) == '+' {
        start = 1;
    }
    let ghost digits = if s@.len() > 0 && s@[0] == '+' { s@.drop_first() } else { s@ };
    if start == n {
        return None;
    }
    let mut acc: u32 = 0;
    let mut i = start;
    assert(s@.subrange(start as int, i as int) =~= Seq::<char>::empty());
    while i < n
        invariant
            start <= i <= n,
            n == s@.len(),
            digits == s@.subrange(start as int, n as int),
            digits == (if s@.len() > 0 && s@[0] == '+' { s@.drop_first() } else { s@ }),
            forall|j: int| start <= j < i ==> is_digit(#[trigger] s@[j]),
            acc == if decimal_value(s@.subrange(start as int, i as int)) > u16::MAX {
                u16::MAX as nat + 1
            } else {
                decimal_value(s@.subrange(start as int, i as int))
            },
        decreases n - i,
    {
        let c = s.get_char(i);
        if (c as u32) < ('0' as u32) || (c as u32) > ('9' as u32) {
            assert(digits[i - start] == c);
            return None;
        }
        let d = (c as u32) - ('0' as u32);
        let ghost prefix = s@.subrange(start as int, i + 1);
        assert(prefix.drop_last() =~= s@.subrange(start as int, i as int));
        let next = acc * 10 + d;
        acc = if next > 65535 { 65536 } else { next };
        i = i + 1;
    }
    assert(all_digits(digits)) by {
        assert forall|k: int| 0 <= k < digits.len() implies is_digit(#[trigger] digits[k]) by {
            assert(digits[k] == s@[start + k]);
        }
    }
    if acc > 65535 {
        None
    } else {
        Some(acc as u16)
    }
}

/// The decimal digits of a number read back give the number.
proof fn lemma_decimal_digits(n: nat)
    ensures
        decimal_digits(n).len() > 0,
        all_digits(decimal_digits(n)),
        decimal_value(decimal_digits(n)) == n,
        is_digit(decimal_digits(n)[0]),
    decreases n,
{
    if n < 10 {
        assert(decimal_digits(n).drop_last() =~= Seq::<char>::empty());
        assert(decimal_value(Seq::<char>::empty()) == 0);
    } else {
        lemma_decimal_digits(n / 10);
        let d = decimal_digits(n);
        assert(d.drop_last() =~= decimal_digits(n / 10));
        assert forall|i: int| 0 <= i < d.len() implies is_digit(#[trigger] d[i]) by {
            if i < d.len() - 1 {
                assert(d[i] == decimal_digits(n / 10)[i]);
            }
        }
    }
}

/// A port written in decimal, without leading zeros, reads back as the same
/// port.
pub proof fn lemma_port_text_round_trip(port: u16)
    ensures
        parse_u16_spec(decimal_digits(port as nat)) == Some(port),
{
    lemma_decimal_digits(port as nat);
}

impl EnvConfig {
    /// The port that `server_port` names, read as `str::parse::<u16>` reads it.
    pub fn port(&self) -> (r: Option<u16>)
        ensures
            r == parse_u16_spec(self.server_port@),
    {
        parse_port(self.server_port.as_str())
    }
}

} // verus!
