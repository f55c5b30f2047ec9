use vstd::prelude::*;

verus! {

/// The character for one hexadecimal digit (lower case).
pub open spec fn hex_digit_char(d: int) -> char {
    if d == 0 {
        '0'
    } else if d == 1 {
        '1'
    } else if d == 2 {
        '2'
    } else if d == 3 {
        '3'
    } else if d == 4 {
        '4'
    } else if d == 5 {
        '5'
    } else if d == 6 {
        '6'
    } else if d == 7 {
        '7'
    } else if d == 8 {
        '8'
    } else if d == 9 {
        '9'
    } else if d == 10 {
        'a'
    } else if d == 11 {
        'b'
    } else if d == 12 {
        'c'
    } else if d == 13 {
        'd'
    } else if d == 14 {
        'e'
    } else {
        'f'
    }
}

/// How one character is written inside a JSON string literal: quote and
/// backslash get a backslash escape, the named control characters get their
/// short escapes, other control characters a `\u00..` escape, and everything
/// else stands as itself.
pub open spec fn json_escaped_char(c: char) -> Seq<char> {
    if c == '"' {
        seq!['\\', '"']
    } else if c == '\\' {
        seq!['\\', '\\']
    } else if c == '\n' {
        seq!['\\', 'n']
    } else if c == '\r' {
        seq!['\\', 'r']
    } else if c == '\t' {
        seq!['\\', 't']
    } else if c as int == 8 {
        seq!['\\', 'b']
    } else if c as int == 12 {
        seq!['\\', 'f']
    } else if (c as int) < 32 {
        seq!['\\', 'u', '0', '0', hex_digit_char(c as int / 16), hex_digit_char(c as int % 16)]
    } else {
        seq![c]
    }
}

/// The characters of `s` written inside a JSON string literal.
pub open spec fn json_escaped(s: Seq<char>) -> Seq<char>
    decreases s.len(),
{
    if s.len() == 0 {
        Seq::empty()
    } else {
        json_escaped(s.drop_last()) + json_escaped_char(s.last())
    }
}

/// A JSON string literal holding `s`: the escaped characters between quotes.
pub open spec fn json_string(s: Seq<char>) -> Seq<char> {
    seq!['"'] + json_escaped(s) + seq!['"']
}

/// Appends `json_escaped_char(c)` to `out`.
fn push_json_escaped_char(out: &mut String, c: char)
    ensures
        final(out)@ == old(out)@ + json_escaped_char(c),
{
    let ghost prior = out@;
    if c == '"' {
        crate::trusted::push_char(out, '\\');
        crate::trusted::push_char(out, '"');
    } else if c == '\\' {
        crate::trusted::push_char(out, '\\');
        crate::trusted::push_char(out, '\\');
    } else if c == '\n' {
        crate::trusted::push_char(out, '\\');
        crate::trusted::push_char(out, 'n');
    } else if c == '\r' {
        crate::trusted::push_char(out, '\\');
        crate::trusted::push_char(out, 'r');
    } else if c == '\t' {
        crate::trusted::push_char(out, '\\');
        crate::trusted::push_char(out, 't');
    } else if c as u32 == 8 {
        crate::trusted::push_char(out, '\\');
        crate::trusted::push_char(out, 'b');
    } else if c as u32 == 12 {
        crate::trusted::push_char(out, '\\');
        crate::trusted::push_char(out, 'f');
    } else if (c as u32) < 32 {
        let v = c as u32;
        crate::trusted::push_char(out, '\\');
        crate::trusted::push_char(out, 'u');
        crate::trusted::push_char(out, '0');
        crate::trusted::push_char(out, '0');
        let hi = if v / 16 == 0 {
            '0'
        } else {
            '1'
        };
        crate::trusted::push_char(out, hi);
        let lo = v % 16;
        let loc: char = if lo == 0 {
            '0'
        } else if lo == 1 {
            '1'
        } else if lo == 2 {
            '2'
        } else if lo == 3 {
            '3'
        } else if lo == 4 {
            '4'
        } else if lo == 5 {
            '5'
        } else if lo == 6 {
            '6'
        } else if lo == 7 {
            '7'
        } else if lo == 8 {
            '8'
        } else if lo == 9 {
            '9'
        } else if lo == 10 {
            'a'
        } else if lo == 11 {
            'b'
        } else if lo == 12 {
            'c'
        } else if lo == 13 {
            'd'
        } else if lo == 14 {
            'e'
        } else {
            'f'
        };
        crate::trusted::push_char(out, loc);
        proof {
            assert(hi == hex_digit_char(c as int / 16));
            assert(loc == hex_digit_char(c as int % 16));
        }
    } else {
        crate::trusted::push_char(out, c);
    }
    proof {
        assert(out@ =~= prior + json_escaped_char(c));
    }
}

/// Appends the characters of `s` in JSON string escaping to `out`.
fn push_json_escaped(out: &mut String, s: &str)
    ensures
        final(out)@ == old(out)@ + json_escaped(s@),
{
    let ghost prior = out@;
    let n = s.unicode_len();
    let mut i: usize = 0;
    while i < n
        invariant
            0 <= i <= n,
            n == s@.len(),
            out@ == prior + json_escaped(s@.subrange(0, i as int)),
        decreases n - i,
    {
        let c = s.get_char(i);
        push_json_escaped_char(out, c);
        proof {
            let pre = s@.subrange(0, i as int);
            let ext = s@.subrange(0, i as int + 1);
            assert(ext.drop_last() =~= pre);
            assert(ext.last() == s@[i as int]);
            assert(out@ =~= prior + json_escaped(ext));
        }
        i = i + 1;
    }
    proof {
        assert(s@.subrange(0, n as int) =~= s@);
    }
}

/// Appends a JSON string literal holding `s` to `out`.
fn push_json_string(out: &mut String, s: &str)
    ensures
        final(out)@ == old(out)@ + json_string(s@),
{
    let ghost prior = out@;
    crate::trusted::push_char(out, '"');
    push_json_escaped(out, s);
    crate::trusted::push_char(out, '"');
    proof {
        assert(out@ =~= prior + json_string(s@));
    }
}

/// The login call of the router's RPC protocol.
pub struct LoginRequest {
    pub method: String,
    pub parameters: LoginParameters,
    pub service: String,
}

/// Credentials and caller name carried by a login call.
pub struct LoginParameters {
    pub application_name: String,
    pub password: String,
    pub username: String,
}

/// The body of a login response.
pub struct LoginResponse {
    pub status: i32,
    pub data: LoginData,
}

/// The payload of a login response: the context token and account facts.
pub struct LoginData {
    pub context_id: String,
    pub username: String,
    pub groups: String,
}

/// The JSON body of a login call, fields in declaration order.
pub open spec fn login_request_json(r: LoginRequest) -> Seq<char> {
    "{\"method\":"@ + json_string(r.method@) + ",\"parameters\":{\"applicationName\":"@
        + json_string(r.parameters.application_name@) + ",\"password\":"@ + json_string(
        r.parameters.password@,
    ) + ",\"username\":"@ + json_string(r.parameters.username@) + "},\"service\":"@ + json_string(
        r.service@,
    ) + "}"@
}

impl LoginRequest {
    /// Builds the login call naming the web interface as caller.
    pub fn create(username: String, password: String) -> (r: LoginRequest)
        ensures
            r.method@ == "createContext"@,
            r.parameters.application_name@ == "webui"@,
            r.parameters.password == password,
            r.parameters.username == username,
            r.service@ == "sah.Device.Information"@,
    {
        LoginRequest {
            method: String::from_str("createContext"),
            parameters: LoginParameters {
                application_name: String::from_str("webui"),
                password,
                username,
            },
            service: String::from_str("sah.Device.Information"),
        }
    }

    /// Renders the call as its JSON body.
    pub fn to_json(&self) -> (r: String)
        ensures
            r@ == login_request_json(*self),
    {
        let mut out = String::from_str("{\"method\":");
        push_json_string(&mut out, self.method.as_str());
        out.append(",\"parameters\":{\"applicationName\":");
        push_json_string(&mut out, self.parameters.application_name.as_str());
        out.append(",\"password\":");
        push_json_string(&mut out, self.parameters.password.as_str());
        out.append(",\"username\":");
        push_json_string(&mut out, self.parameters.username.as_str());
        out.append("},\"service\":");
        push_json_string(&mut out, self.service.as_str());
        out.append("}");
        proof {
            assert(out@ =~= login_request_json(*self));
        }
        out
    }
}

/// The JSON body of a call that takes no parameters, fields in declaration
/// order with an empty parameter object.
pub open spec fn plain_request_json(method: Seq<char>, service: Seq<char>) -> Seq<char> {
    "{\"method\":"@ + json_string(method) + ",\"parameters\":null,\"service\":"@ + json_string(
        service,
    ) + "}"@
}

/// Renders a parameterless call as its JSON body.
fn plain_request_to_json(method: &String, service: &String) -> (r: String)
    ensures
        r@ == plain_request_json(method@, service@),
{
    let mut out = String::from_str("{\"method\":");
    push_json_string(&mut out, method.as_str());
    out.append(",\"parameters\":null,\"service\":");
    push_json_string(&mut out, service.as_str());
    out.append("}");
    proof {
        assert(out@ =~= plain_request_json(method@, service@));
    }
    out
}

/// The connection-state call of the router's RPC protocol.
pub struct StateRequest {
    pub method: String,
    pub parameters: NoParameters,
    pub service: String,
}

/// The empty parameter list of a parameterless call.
pub struct NoParameters;

/// The body of a connection-state response.
pub struct StateResponse {
    pub status: String,
}

impl StateRequest {
    /// Builds the connection-state call.
    pub fn create() -> (r: StateRequest)
        ensures
            r.method@ == "getState"@,
            r.service@ == "UserInterface"@,
    {
        StateRequest {
            method: String::from_str("getState"),
            parameters: NoParameters {  },
            service: String::from_str("UserInterface"),
        }
    }

    /// Renders the call as its JSON body.
    pub fn to_json(&self) -> (r: String)
        ensures
            r@ == plain_request_json(self.method@, self.service@),
    {
        plain_request_to_json(&self.method, &self.service)
    }
}

/// The WAN-status call of the router's RPC protocol.
pub struct WANStatusRequest {
    pub method: String,
    pub parameters: NoParameters,
    pub service: String,
}

/// The payload of a WAN-status response: the state of the fibre link.
pub struct FTTH {
    pub wan_state: String,
    pub link_type: String,
    pub link_state: String,
    pub gpon_state: String,
    pub mac_address: String,
    pub protocol: String,
    pub connection_state: String,
    pub last_connection_error: String,
    pub ip_address: String,
    pub remote_gateway: String,
    pub dns_servers: String,
    pub ipv6_address: String,
}

/// The body of a WAN-status response.
pub struct WANStatusResponse {
    pub status: bool,
    pub data: FTTH,
}

impl WANStatusRequest {
    /// Builds the WAN-status call.
    pub fn create() -> (r: WANStatusRequest)
        ensures
            r.method@ == "getWANStatus"@,
            r.service@ == "NMC"@,
    {
        WANStatusRequest {
            method: String::from_str("getWANStatus"),
            parameters: NoParameters {  },
            service: String::from_str("NMC"),
        }
    }

    /// Renders the call as its JSON body.
    pub fn to_json(&self) -> (r: String)
        ensures
            r@ == plain_request_json(self.method@, self.service@),
    {
        plain_request_to_json(&self.method, &self.service)
    }
}

/// Whether a connection-state response reports the internet link up.
pub fn is_connected(resp: &StateResponse) -> (r: bool)
    ensures
        r == (resp.status@ == "connected"@),
{
    crate::text::str_eq(resp.status.as_str(), "connected")
}

/// The address field of a WAN-status response.
pub fn wan_ip(r: &WANStatusResponse) -> (ip: String)
    ensures
        ip@ == r.data.ip_address@,
{
    r.data.ip_address.clone()
}

} // verus!
