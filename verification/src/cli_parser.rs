//! Turning the matched command-line arguments of a subcommand into the typed
//! arguments of the server, client and enclave modes.

use vstd::prelude::*;

verus! {

/// One argument that the subcommand defines, as the command-line parser
/// matched it.
#[derive(Debug)]
pub struct MatchedArg {
    /// The argument's id (`port`, `cid`, ...).
    pub id: String,
    /// The value given on the command line, if any.
    pub value: Option<String>,
    /// Whether the argument occurred on the command line.
    pub present: bool,
}

/// The arguments of one subcommand as the command-line parser matched them:
/// every argument that the subcommand defines, with what was given for it.
/// When an id occurs twice, the first entry counts.
#[derive(Debug)]
pub struct ArgMatches {
    pub args: Vec<MatchedArg>,
}

/// The error of asking for an argument that the subcommand does not define.
#[derive(Debug, Clone, Copy, PartialEq, Eq)]
pub enum MatchesError {
    UnknownArgument,
}

/// The first entry of `args` with the id `id`.
pub open spec fn find_arg(args: Seq<MatchedArg>, id: Seq<char>) -> Option<MatchedArg>
    decreases args.len(),
{
    if args.len() == 0 {
        None
    } else if args[0].id@ == id {
        Some(args[0])
    } else {
        find_arg(args.drop_first(), id)
    }
}

/// The view of an optional string.
pub open spec fn opt_view(o: Option<String>) -> Option<Seq<char>> {
    match o {
        Some(s) => Some(s@),
        None => None,
    }
}

/// Whether `c` is one of the ASCII digits `0` to `9`.
pub open spec fn is_digit(c: char) -> bool {
    48 <= (c as u32) <= 57
}

/// The number that the ASCII digit `c` stands for.
pub open spec fn digit_value(c: char) -> int {
    (c as u32) - 48
}

/// The number written by the decimal digits `s`, most significant first.
pub open spec fn decimal_value(s: Seq<char>) -> int
    decreases s.len(),
{
    if s.len() == 0 {
        0
    } else {
        decimal_value(s.drop_last()) * 10 + digit_value(s.last())
    }
}

/// `s` without one leading `+` sign.
pub open spec fn unsigned_digits(s: Seq<char>) -> Seq<char> {
    if s.len() > 0 && s[0] == '+' {
        s.drop_first()
    } else {
        s
    }
}

/// What parsing `s` as a `u32` gives: an optional `+` followed by at least
/// one decimal digit and nothing else, whose value fits in a `u32`.
pub open spec fn parse_u32_spec(s: Seq<char>) -> Option<u32> {
    let d = unsigned_digits(s);
    if d.len() > 0 && (forall|i: int| 0 <= i < d.len() ==> is_digit(#[trigger] d[i]))
        && decimal_value(d) <= u32::MAX {
        Some(decimal_value(d) as u32)
    } else {
        None
    }
}

/// The error reported when the argument `flag` was not given.
pub open spec fn missing_arg_message(flag: Seq<char>) -> Seq<char> {
    "Could not find --"@ + flag + " argument"@
}

/// The error reported when the value of `flag` is not a number.
pub open spec fn not_a_number_message(flag: Seq<char>) -> Seq<char> {
    "--"@ + flag + " is not containing a number"@
}

/// The error reported when `flag` is not an argument of the subcommand.
pub open spec fn unknown_arg_message(flag: Seq<char>) -> Seq<char> {
    "--"@ + flag + " is not a valid argument. Failed while matching an argument with error: "@
        + "UnknownArgument"@
}

/// What `parse_arg` gives for the argument `flag` whose value is `value`.
pub open spec fn parse_arg_spec(flag: Seq<char>, value: Option<Seq<char>>) -> Result<
    u32,
    Seq<char>,
> {
    match value {
        None => Err(missing_arg_message(flag)),
        Some(v) => match parse_u32_spec(v) {
            Some(n) => Ok(n),
            None => Err(not_a_number_message(flag)),
        },
    }
}

/// A result whose error text is taken by its view.
pub open spec fn result_view<T>(r: Result<T, String>) -> Result<T, Seq<char>> {
    match r {
        Ok(t) => Ok(t),
        Err(e) => Err(e@),
    }
}

proof fn lemma_decimal_value_nonneg(s: Seq<char>)
    requires
        forall|i: int| 0 <= i < s.len() ==> is_digit(#[trigger] s[i]),
    ensures
        decimal_value(s) >= 0,
    decreases s.len(),
{
    if s.len() > 0 {
        assert(is_digit(s[s.len() - 1]));
        lemma_decimal_value_nonneg(s.drop_last());
    }
}

/// The value of a sequence of digits is at least the value of any prefix.
proof fn lemma_decimal_value_prefix(s: Seq<char>, k: int)
    requires
        0 <= k <= s.len(),
        forall|i: int| 0 <= i < s.len() ==> is_digit(#[trigger] s[i]),
    ensures
        decimal_value(s) >= decimal_value(s.take(k)),
    decreases s.len(),
{
    if k < s.len() {
        let p = s.drop_last();
        assert(p.take(k) =~= s.take(k));
        lemma_decimal_value_prefix(p, k);
        lemma_decimal_value_nonneg(p);
        assert(is_digit(s[s.len() - 1]));
    } else {
        assert(s.take(k) =~= s);
    }
}

/// Parses `s` as `str::parse::<u32>` does: an optional `+` sign followed by
/// decimal digits only, with a value that fits in a `u32`.
pub fn parse_u32(s: &str) -> (r: Option<u32>)
    ensures
        r == parse_u32_spec(s@),
        (s@.len() > 0 && (forall|i: int| 0 <= i < s@.len() ==> 48 <= (#[trigger] s@[i]) as u32 <= 57)
            && decimal_value(s@) <= u32::MAX) ==> r == Some(decimal_value(s@) as u32),
{
    let n = s.unicode_len();
    let mut start: usize = 0;
    if n > 0 && s.get_char(0) == '+' {
        start = 1;
    }
    let ghost d = unsigned_digits(s@);
    assert(d =~= s@.subrange(start as int, n as int));
    if start >= n {
        return None;
    }
    let mut i: usize = start;
    let mut acc: u64 = 0;
    while i < n
        invariant
            n == s@.len(),
            start < n,
            start <= i <= n,
            d == s@.subrange(start as int, n as int),
            d == unsigned_digits(s@),
            acc <= u32::MAX,
            acc == decimal_value(d.take(i - start)),
            forall|j: int| 0 <= j < i - start ==> is_digit(#[trigger] d[j]),
        decreases n - i,
    {
        let c = s.get_char(i);
        assert(d[i - start] == c);
        let v = c as u32;
        if v < 48 || v > 57 {
            assert(!is_digit(d[i - start]));
            return None;
        }
        assert(d.take(i - start + 1).drop_last() =~= d.take(i - start));
        assert(d.take(i - start + 1).last() == c);
        acc = acc * 10 + (v - 48) as u64;
        assert(acc == decimal_value(d.take(i - start + 1)));
        if acc > 4294967295u64 {
            proof {
                if forall|j: int| 0 <= j < d.len() ==> is_digit(#[trigger] d[j]) {
                    lemma_decimal_value_prefix(d, i - start + 1);
                }
            }
            return None;
        }
        i = i + 1;
    }
    assert(d.take(n - start) =~= d);
    Some(acc as u32)
}

/// Every string of one or more decimal digits whose value fits in a `u32`
/// parses to that value, with or without one leading `+`.
pub proof fn lemma_parse_u32_accepts_digits(s: Seq<char>)
    requires
        s.len() > 0,
        forall|i: int| 0 <= i < s.len() ==> 48 <= (#[trigger] s[i]) as u32 <= 57,
        decimal_value(s) <= u32::MAX,
    ensures
        parse_u32_spec(s) == Some(decimal_value(s) as u32),
        parse_u32_spec(seq!['+'] + s) == Some(decimal_value(s) as u32),
{
    assert(s[0] as u32 != 43);
    assert(unsigned_digits(s) == s);
    assert((seq!['+'] + s)[0] == '+');
    assert(unsigned_digits(seq!['+'] + s) =~= s);
}

/// A single decimal digit parses to the number it stands for.
pub proof fn lemma_parse_u32_single_digit(c: char)
    requires
        48 <= c as u32 <= 57,
    ensures
        parse_u32_spec(seq![c]) == Some(((c as u32) - 48) as u32),
{
    let s = seq![c];
    assert(unsigned_digits(s) == s);
    assert(s.drop_last() =~= Seq::<char>::empty());
    assert(decimal_value(Seq::<char>::empty()) == 0);
    assert(s.last() == c);
    assert(decimal_value(s) == (c as u32) - 48);
    assert(is_digit(s[0]));
}

/// Appending a decimal digit to a parsed number multiplies it by ten and adds
/// the digit, as long as the result fits in a `u32`.
pub proof fn lemma_parse_u32_append_digit(s: Seq<char>, c: char, v: u32)
    requires
        parse_u32_spec(s) == Some(v),
        48 <= c as u32 <= 57,
        v * 10 + ((c as u32) - 48) <= u32::MAX,
    ensures
        parse_u32_spec(s.push(c)) == Some((v * 10 + ((c as u32) - 48)) as u32),
{
    let d = unsigned_digits(s);
    let e = unsigned_digits(s.push(c));
    assert(s.len() > 0);
    assert(s.push(c)[0] == s[0]);
    if s[0] == '+' {
        assert(e =~= d.push(c));
    } else {
        assert(e =~= d.push(c));
    }
    assert(e.drop_last() =~= d);
    assert(e.last() == c);
    lemma_decimal_value_nonneg(d);
    assert(v == decimal_value(d));
    assert(decimal_value(e) == decimal_value(d) * 10 + (c as u32) - 48);
    assert(forall|i: int| 0 <= i < e.len() ==> is_digit(#[trigger] e[i])) by {
        assert forall|i: int| 0 <= i < e.len() implies is_digit(#[trigger] e[i]) by {
            if i < d.len() {
                assert(e[i] == d[i]);
            }
        }
    }
}

/// A string with a character that is neither a decimal digit nor its one
/// leading `+` does not parse.
pub proof fn lemma_parse_u32_rejects_non_digit(s: Seq<char>, k: int)
    requires
        0 <= k < s.len(),
        !(48 <= s[k] as u32 <= 57),
        !(k == 0 && s[k] as u32 == 43),
    ensures
        parse_u32_spec(s) is None,
{
    let d = unsigned_digits(s);
    if s[0] == '+' {
        assert(d[k - 1] == s[k]);
        assert(!is_digit(d[k - 1]));
    } else {
        assert(d[k] == s[k]);
        assert(!is_digit(d[k]));
    }
}

/// A number too large for a `u32` does not parse.
pub proof fn lemma_parse_u32_rejects_overflow(s: Seq<char>)
    requires
        decimal_value(unsigned_digits(s)) > u32::MAX,
    ensures
        parse_u32_spec(s) is None,
{
}

impl ArgMatches {
    /// The entry of the argument `id`, if the subcommand defines it.
    pub open spec fn spec_lookup(&self, id: Seq<char>) -> Option<MatchedArg> {
        find_arg(self.args@, id)
    }

    /// Index of the first entry with the id `flag`.
    fn position(&self, flag: &str) -> (r: Option<usize>)
        ensures
            match r {
                Some(i) => i < self.args@.len() && self.spec_lookup(flag@) == Some(self.args@[i as int]),
                None => self.spec_lookup(flag@) is None,
            },
    {
        let key = String::from_str(flag);
        let n = self.args.len();
        let mut i: usize = 0;
        assert(self.args@.skip(0) =~= self.args@);
        while i < n
            invariant
                n == self.args@.len(),
                i <= n,
                key@ == flag@,
                find_arg(self.args@, flag@) == find_arg(self.args@.skip(i as int), flag@),
            decreases n - i,
        {
            proof {
                let rest = self.args@.skip(i as int);
                assert(rest[0] == self.args@[i as int]);
                assert(rest.drop_first() =~= self.args@.skip(i + 1));
            }
            if self.args[i].id == key {
                return Some(i);
            }
            i = i + 1;
        }
        None
    }

    /// The value given for the argument `id`, as clap's `get_one::<String>`
    /// returns it. Asking for an argument that the subcommand does not
    /// define is a programming error there, and is ruled out here.
    pub fn get_one(&self, id: &str) -> (r: Option<&String>)
        requires
            self.spec_lookup(id@) is Some,
        ensures
            match r {
                Some(v) => opt_view(self.spec_lookup(id@)->0.value) == Some(v@),
                None => self.spec_lookup(id@)->0.value is None,
            },
    {
        match self.position(id) {
            Some(i) => match &self.args[i].value {
                Some(v) => Some(v),
                None => None,
            },
            None => None,
        }
    }

    /// Whether the argument `id` occurred, as clap's `try_contains_id`
    /// answers; an id that the subcommand does not define is an error.
    pub fn try_contains_id(&self, id: &str) -> (r: Result<bool, MatchesError>)
        ensures
            match self.spec_lookup(id@) {
                Some(a) => r == Ok::<bool, MatchesError>(a.present),
                None => r == Err::<bool, MatchesError>(MatchesError::UnknownArgument),
            },
    {
        match self.position(id) {
            Some(i) => Ok(self.args[i].present),
            None => Err(MatchesError::UnknownArgument),
        }
    }
}

/// The three strings `a`, `b` and `c` one after another.
fn concat3(a: &str, b: &str, c: &str) -> (s: String)
    ensures
        s@ == a@ + b@ + c@,
{
    let mut s = String::from_str(a);
    s.append(b);
    s.append(c);
    s
}

/// Reads the argument `flag` as a `u32`.
pub fn parse_arg(flag: &str, args: &ArgMatches) -> (res: Result<u32, String>)
    requires
        args.spec_lookup(flag@) is Some,
    ensures
        result_view(res) == parse_arg_spec(flag@, opt_view(args.spec_lookup(flag@)->0.value)),
{
    match args.get_one(flag) {
        None => Err(concat3("Could not find --", flag, " argument")),
        Some(arg) => match parse_u32(arg.as_str()) {
            Some(n) => Ok(n),
            None => Err(concat3("--", flag, " is not containing a number")),
        },
    }
}

/// Whether the argument `flag` occurred on the command line.
pub fn arg_presence(flag: &str, args: &ArgMatches) -> (res: Result<bool, String>)
    ensures
        match args.spec_lookup(flag@) {
            Some(a) => res == Ok::<bool, String>(a.present),
            None => res matches Err(e) && e@ == unknown_arg_message(flag@),
        },
{
    match args.try_contains_id(flag) {
        Ok(b) => Ok(b),
        Err(_) => {
            let mut s = concat3(
                "--",
                flag,
                " is not a valid argument. Failed while matching an argument with error: ",
            );
            s.append("UnknownArgument");
            Err(s)
        },
    }
}

/// Arguments of the `server` subcommand.
#[derive(Debug, Clone, Copy, PartialEq, Eq)]
pub struct ServerArgs {
    pub port: u32,
}

impl ServerArgs {
    /// Reads `--port`.
    pub fn new_with(args: &ArgMatches) -> (res: Result<Self, String>)
        requires
            args.spec_lookup("port"@) is Some,
        ensures
            match parse_arg_spec("port"@, opt_view(args.spec_lookup("port"@)->0.value)) {
                Ok(port) => res == Ok::<ServerArgs, String>(ServerArgs { port }),
                Err(e) => res matches Err(m) && m@ == e,
            },
    {
        Ok(ServerArgs { port: parse_arg("port", args)? })
    }
}

/// Arguments of the `client` subcommand.
#[derive(Debug, Clone, Copy, PartialEq, Eq)]
pub struct ClientArgs {
    pub cid: u32,
    pub port: u32,
}

impl ClientArgs {
    /// Reads `--cid`, then `--port`; the first argument that fails decides
    /// the error.
    pub fn new_with(args: &ArgMatches) -> (res: Result<Self, String>)
        requires
            args.spec_lookup("cid"@) is Some,
            args.spec_lookup("port"@) is Some,
        ensures
            match (
                parse_arg_spec("cid"@, opt_view(args.spec_lookup("cid"@)->0.value)),
                parse_arg_spec("port"@, opt_view(args.spec_lookup("port"@)->0.value)),
            ) {
                (Ok(cid), Ok(port)) => res == Ok::<ClientArgs, String>(ClientArgs { cid, port }),
                (Err(e), _) => res matches Err(m) && m@ == e,
                (Ok(_), Err(e)) => res matches Err(m) && m@ == e,
            },
    {
        Ok(ClientArgs { cid: parse_arg("cid", args)?, port: parse_arg("port", args)? })
    }
}

/// Arguments of the `enclave-mode` and `host-mode` subcommands.
#[derive(Debug, Clone, Copy, PartialEq, Eq)]
pub struct RxTxArgs {
    pub rx_port: u32,
    pub tx_port: u32,
    pub cid: u32,
    pub re_enc: bool,
}

impl RxTxArgs {
    /// Reads `--rx-port`, `--tx-port`, `--cid` and whether `--re-enc`
    /// occurred, in this order; the first argument that fails decides the
    /// error.
    pub fn new_with(args: &ArgMatches) -> (res: Result<Self, String>)
        requires
            args.spec_lookup("rx-port"@) is Some,
            args.spec_lookup("tx-port"@) is Some,
            args.spec_lookup("cid"@) is Some,
        ensures
            match (
                parse_arg_spec("rx-port"@, opt_view(args.spec_lookup("rx-port"@)->0.value)),
                parse_arg_spec("tx-port"@, opt_view(args.spec_lookup("tx-port"@)->0.value)),
                parse_arg_spec("cid"@, opt_view(args.spec_lookup("cid"@)->0.value)),
                args.spec_lookup("re-enc"@),
            ) {
                (Err(e), _, _, _) => res matches Err(m) && m@ == e,
                (Ok(_), Err(e), _, _) => res matches Err(m) && m@ == e,
                (Ok(_), Ok(_), Err(e), _) => res matches Err(m) && m@ == e,
                (Ok(_), Ok(_), Ok(_), None) => res matches Err(m) && m@ == unknown_arg_message(
                    "re-enc"@,
                ),
                (Ok(rx_port), Ok(tx_port), Ok(cid), Some(a)) => res == Ok::<RxTxArgs, String>(
                    RxTxArgs { rx_port, tx_port, cid, re_enc: a.present },
                ),
            },
    {
        Ok(RxTxArgs {
            rx_port: parse_arg("rx-port", args)?,
            tx_port: parse_arg("tx-port", args)?,
            cid: parse_arg("cid", args)?,
            re_enc: arg_presence("re-enc", args)?,
        })
    }
}

} // verus!
