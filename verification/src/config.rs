//! Server configuration: the user-facing settings and the per-connection
//! slice of them.

use vstd::prelude::*;
use vstd::string::StrSliceExecFns;
use vstd::string::StringExecFns;

verus! {

/// The user-facing configuration of the proxy.  The embedding executable
/// fills it from the command line.
#[derive(Debug, Clone)]
pub struct ProxyConfig {
    pub host: String,
    pub port: u16,
    pub verbose: bool,
    pub max_connections: usize,
    pub handshake_timeout: u64,
    pub connection_timeout: u64,
    pub buffer_size: usize,
    pub tcp_nodelay: bool,
    pub auth_methods: String,
}

/// The read-only slice of the configuration one connection needs.
/// Timeouts are whole seconds.
#[derive(Debug, Clone)]
pub struct ConnectionConfig {
    pub buffer_size: usize,
    pub tcp_nodelay: bool,
    pub handshake_timeout: u64,
    pub connection_timeout: u64,
    pub supported_auth_methods: Vec<u8>,
}

/// Whether `c` separates tokens only visually.
pub open spec fn spec_is_space(c: char) -> bool {
    c == ' ' || c == '\t' || c == '\r' || c == '\n'
}

/// `s` without its leading spaces.
pub open spec fn spec_trim_start(s: Seq<char>) -> Seq<char>
    decreases s.len(),
{
    if s.len() > 0 && spec_is_space(s.first()) {
        spec_trim_start(s.drop_first())
    } else {
        s
    }
}

/// `s` without its trailing spaces.
pub open spec fn spec_trim_end(s: Seq<char>) -> Seq<char>
    decreases s.len(),
{
    if s.len() > 0 && spec_is_space(s.last()) {
        spec_trim_end(s.drop_last())
    } else {
        s
    }
}

/// `s` without leading and trailing spaces.
pub open spec fn spec_trim(s: Seq<char>) -> Seq<char> {
    spec_trim_end(spec_trim_start(s))
}

/// Whether a comma-separated segment names the no-authentication method:
/// after trimming it reads "none", ignoring ASCII case.
pub open spec fn spec_is_none_tag(seg: Seq<char>) -> bool {
    let t = spec_trim(seg);
    &&& t.len() == 4
    &&& (t[0] == 'n' || t[0] == 'N')
    &&& (t[1] == 'o' || t[1] == 'O')
    &&& (t[2] == 'n' || t[2] == 'N')
    &&& (t[3] == 'e' || t[3] == 'E')
}

/// The method tags collected while scanning `s` with the partial segment
/// `seg` already accumulated: each comma-separated segment naming "none"
/// contributes the no-auth tag 0x00, in order.
pub open spec fn spec_auth_scan(s: Seq<char>, seg: Seq<char>) -> Seq<u8>
    decreases s.len(),
{
    if s.len() == 0 {
        if spec_is_none_tag(seg) {
            seq![0x00u8]
        } else {
            Seq::empty()
        }
    } else if s.first() == ',' {
        (if spec_is_none_tag(seg) {
            seq![0x00u8]
        } else {
            Seq::empty()
        }) + spec_auth_scan(s.drop_first(), Seq::empty())
    } else {
        spec_auth_scan(s.drop_first(), seg.push(s.first()))
    }
}

/// The supported-method list parsed from the `auth_methods` setting: one
/// no-auth tag for each segment naming "none", and the no-auth tag alone
/// when no segment does.
pub open spec fn spec_auth_methods(s: Seq<char>) -> Seq<u8> {
    let picked = spec_auth_scan(s, Seq::empty());
    if picked.len() == 0 {
        seq![0x00u8]
    } else {
        picked
    }
}

fn is_space_char(c: char) -> (r: bool)
    ensures
        r == spec_is_space(c),
{
    c == ' ' || c == '\t' || c == '\r' || c == '\n'
}

/// Trimming a prefix of spaces leaves the trim of the rest.
proof fn lemma_trim_start_skip(s: Seq<char>, k: int)
    requires
        0 <= k <= s.len(),
        forall|i: int| 0 <= i < k ==> spec_is_space(#[trigger] s[i]),
    ensures
        spec_trim_start(s) == spec_trim_start(s.skip(k)),
    decreases k,
{
    if k > 0 {
        assert(spec_is_space(s.first()));
        assert(s.drop_first() =~= s.skip(1));
        lemma_trim_start_skip(s.skip(1), k - 1);
        assert(s.skip(1).skip(k - 1) =~= s.skip(k));
    } else {
        assert(s.skip(0) =~= s);
    }
}

/// Trimming a suffix of spaces leaves the trim of the rest.
proof fn lemma_trim_end_take(s: Seq<char>, m: int)
    requires
        0 <= m <= s.len(),
        forall|i: int| m <= i < s.len() ==> spec_is_space(#[trigger] s[i]),
    ensures
        spec_trim_end(s) == spec_trim_end(s.take(m)),
    decreases s.len() - m,
{
    if m < s.len() {
        assert(spec_is_space(s.last()));
        assert(s.drop_last() =~= s.take(s.len() - 1));
        lemma_trim_end_take(s.take(s.len() - 1), m);
        assert(s.take(s.len() - 1).take(m) =~= s.take(m));
    } else {
        assert(s.take(m) =~= s);
    }
}

/// Judge whether a segment names "none", by scanning it once from each
/// side.
fn is_none_tag(seg: &Vec<char>) -> (r: bool)
    ensures
        r == spec_is_none_tag(seg@),
{
    let n = seg.len();
    let mut a: usize = 0;
    while a < n && is_space_char(seg[a])
        invariant
            a <= n,
            n == seg@.len(),
            forall|i: int| 0 <= i < a ==> spec_is_space(#[trigger] seg@[i]),
        decreases n - a,
    {
        a = a + 1;
    }
    let mut b: usize = n;
    while b > a && is_space_char(seg[b - 1])
        invariant
            a <= b <= n,
            n == seg@.len(),
            forall|i: int| b <= i < n ==> spec_is_space(#[trigger] seg@[i]),
        decreases b,
    {
        b = b - 1;
    }
    proof {
        lemma_trim_start_skip(seg@, a as int);
        if a < n {
            assert(!spec_is_space(seg@.skip(a as int).first()));
        }
        assert(spec_trim_start(seg@) == seg@.skip(a as int));
        lemma_trim_end_take(seg@.skip(a as int), b - a);
        if b > a {
            assert(seg@.skip(a as int).take(b - a).last() == seg@[b - 1]);
            assert(!spec_is_space(seg@.skip(a as int).take(b - a).last()));
        }
        assert(spec_trim_end(seg@.skip(a as int).take(b - a)) == seg@.skip(a as int).take(b - a));
        assert(spec_trim(seg@) == seg@.skip(a as int).take(b - a));
        assert(seg@.skip(a as int).take(b - a) =~= seg@.subrange(a as int, b as int));
    }
    if b - a != 4 {
        return false;
    }
    let c0 = seg[a];
    let c1 = seg[a + 1];
    let c2 = seg[a + 2];
    let c3 = seg[a + 3];
    (c0 == 'n' || c0 == 'N') && (c1 == 'o' || c1 == 'O') && (c2 == 'n' || c2 == 'N') && (c3 == 'e'
        || c3 == 'E')
}

/// The characters of `s`, in order.
fn string_chars(s: &str) -> (chars: Vec<char>)
    ensures
        chars@ == s@,
{
    let n = s.unicode_len();
    let mut chars: Vec<char> = Vec::new();
    let mut i: usize = 0;
    while i < n
        invariant
            i <= n,
            n == s@.len(),
            chars@ == s@.take(i as int),
        decreases n - i,
    {
        chars.push(s.get_char(i));
        proof {
            assert(chars@ =~= s@.take(i + 1));
        }
        i = i + 1;
    }
    proof {
        assert(s@.take(n as int) =~= s@);
    }
    chars
}

impl ProxyConfig {
    /// The transfer buffer size in bytes: the setting is in kilobytes.
    pub fn buffer_size_bytes(&self) -> (r: usize)
        requires
            self.buffer_size <= usize::MAX / 1024,
        ensures
            r == self.buffer_size * 1024,
    {
        self.buffer_size * 1024
    }

    /// The method tags the server is configured to support: one no-auth tag
    /// for each comma-separated segment of `auth_methods` that reads
    /// "none" (ignoring ASCII case and surrounding spaces), and no-auth
    /// alone when no segment does.  Other names are ignored.
    pub fn supported_auth_methods(&self) -> (methods: Vec<u8>)
        ensures
            methods@ == spec_auth_methods(self.auth_methods@),
            methods@.len() >= 1,
    {
        let chars = string_chars(self.auth_methods.as_str());
        let n = chars.len();
        let mut methods: Vec<u8> = Vec::new();
        let mut seg: Vec<char> = Vec::new();
        let mut i: usize = 0;
        proof {
            assert(chars@.skip(0) =~= chars@);
            assert(seg@ =~= Seq::<char>::empty());
            assert(methods@ + spec_auth_scan(chars@, Seq::empty()) =~= spec_auth_scan(
                chars@,
                Seq::empty(),
            ));
        }
        while i < n
            invariant
                i <= n,
                n == chars@.len(),
                chars@ == self.auth_methods@,
                methods@ + spec_auth_scan(chars@.skip(i as int), seg@) == spec_auth_scan(
                    chars@,
                    Seq::empty(),
                ),
            decreases n - i,
        {
            let c = chars[i];
            proof {
                assert(chars@.skip(i as int).first() == chars@[i as int]);
                assert(chars@.skip(i as int).drop_first() =~= chars@.skip(i + 1));
            }
            if c == ',' {
                if is_none_tag(&seg) {
                    methods.push(0x00);
                }
                seg.clear();
            } else {
                seg.push(c);
            }
            i = i + 1;
        }
        proof {
            assert(chars@.skip(n as int) =~= Seq::<char>::empty());
        }
        if is_none_tag(&seg) {
            methods.push(0x00);
        }
        if methods.len() == 0 {
            methods.push(0x00);
        }
        methods
    }

    /// Check the settings: the port and the connection limit must not be
    /// zero, and the buffer size must be between 1 KB and 1024 KB.
    pub fn validate(&self) -> (r: Result<(), String>)
        ensures
            r is Ok <==> (self.port != 0 && self.max_connections != 0 && 1 <= self.buffer_size
                <= 1024),
            self.port == 0 ==> (r matches Err(msg) && msg@ == "Port cannot be 0"@),
            self.port != 0 && self.max_connections == 0 ==> (r matches Err(msg) && msg@
                == "Max connections must be greater than 0"@),
            self.port != 0 && self.max_connections != 0 && self.buffer_size == 0 ==> (
            r matches Err(msg) && msg@ == "Buffer size must be greater than 0"@),
            self.port != 0 && self.max_connections != 0 && self.buffer_size > 1024 ==> (
            r matches Err(msg) && msg@ == "Buffer size cannot exceed 1024 KB"@),
    {
        if self.port == 0 {
            return Err(String::from_str("Port cannot be 0"));
        }
        if self.max_connections == 0 {
            return Err(String::from_str("Max connections must be greater than 0"));
        }
        if self.buffer_size == 0 {
            return Err(String::from_str("Buffer size must be greater than 0"));
        }
        if self.buffer_size > 1024 {
            return Err(String::from_str("Buffer size cannot exceed 1024 KB"));
        }
        let methods = self.supported_auth_methods();
        if methods.len() == 0 {
            return Err(String::from_str("At least one authentication method must be supported"));
        }
        Ok(())
    }
}

impl ConnectionConfig {
    /// The per-connection slice of `config`: the buffer size in bytes, the
    /// timeouts in seconds, and the parsed method list.
    pub fn from_proxy(config: &ProxyConfig) -> (r: ConnectionConfig)
        requires
            config.buffer_size <= usize::MAX / 1024,
        ensures
            r.buffer_size == config.buffer_size * 1024,
            r.tcp_nodelay == config.tcp_nodelay,
            r.handshake_timeout == config.handshake_timeout,
            r.connection_timeout == config.connection_timeout,
            r.supported_auth_methods@ == spec_auth_methods(config.auth_methods@),
    {
        ConnectionConfig {
            buffer_size: config.buffer_size_bytes(),
            tcp_nodelay: config.tcp_nodelay,
            handshake_timeout: config.handshake_timeout,
            connection_timeout: config.connection_timeout,
            supported_auth_methods: config.supported_auth_methods(),
        }
    }
}

} // verus!
