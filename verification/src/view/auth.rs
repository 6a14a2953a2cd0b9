//! Who may see the web view.

use crate::util::crypto::{
    generate_sha1_hmac, hex_decode, hex_encode, hmac_matches, hmac_outcome, hmac_sha1, lemma_hex_round_trip,
};
use vstd::prelude::*;
use vstd::string::*;
use vstd::utf8::encode_utf8;

verus! {

/// How users of the view authenticate: not at all, or through a GitHub
/// application (its id, its secret, and the organization whose members
/// may see the view).
#[derive(Debug, PartialEq, Eq)]
pub enum Auth {
    NoAuth,
    Github(String, String, String),
}

pub enum AuthView {
    NoAuth,
    Github(Seq<char>, Seq<char>, Seq<char>),
}

impl View for Auth {
    type V = AuthView;

    open spec fn view(&self) -> AuthView {
        match self {
            Auth::NoAuth => AuthView::NoAuth,
            Auth::Github(a, b, c) => AuthView::Github(a@, b@, c@),
        }
    }
}

/// A borrowed [`Auth`].
#[derive(Clone, Copy)]
pub enum AuthRef<'a> {
    NoAuth,
    Github(&'a str, &'a str, &'a str),
}

impl<'a> AuthRef<'a> {
    /// Borrow an [`Auth`].
    pub fn from(a: &'a Auth) -> (r: AuthRef<'a>)
        ensures
            match r {
                AuthRef::NoAuth => a@ == AuthView::NoAuth,
                AuthRef::Github(x, y, z) => a@ == AuthView::Github(x@, y@, z@),
            },
    {
        match a {
            Auth::NoAuth => AuthRef::NoAuth,
            Auth::Github(app_id, app_secret, org) => AuthRef::Github(app_id.as_str(), app_secret.as_str(), org.as_str()),
        }
    }
}

/// The authentication of the view and the secret that signs its cookies.
pub struct AuthManager<'a> {
    pub auth: AuthRef<'a>,
    pub secret: &'a str,
}

/// The pairs that `application/x-www-form-urlencoded` text encodes.
pub uninterp spec fn form_urlencoded_parse_result(input: Seq<u8>) -> Seq<(Seq<char>, Seq<char>)>;

/// Calls `url::form_urlencoded::parse`, which decodes the name-value pairs
/// of a query string (`+` and percent escapes decoded, invalid UTF-8
/// replaced), in order.
#[verifier::external_body]
fn form_urlencoded_parse(input: &[u8]) -> (r: Vec<(String, String)>)
    ensures
        r@.map_values(|p: (String, String)| (p.0@, p.1@)) == form_urlencoded_parse_result(input@),
{
    url::form_urlencoded::parse(input).map(|(k, v)| (k.into_owned(), v.into_owned())).collect()
}

/// The `application/x-www-form-urlencoded` text of name-value pairs.
pub uninterp spec fn form_urlencoded_serialize_result(pairs: Seq<(Seq<char>, Seq<char>)>) -> Seq<char>;

/// Calls `url::form_urlencoded::Serializer`, appending the pairs in order
/// to an empty string with `append_pair` and taking the result of
/// `finish`.
#[verifier::external_body]
fn form_urlencoded_serialize(pairs: &Vec<(String, String)>) -> (r: String)
    ensures
        r@ == form_urlencoded_serialize_result(pairs@.map_values(|p: (String, String)| (p.0@, p.1@))),
{
    let mut s = url::form_urlencoded::Serializer::new(String::new());
    for (k, v) in pairs.iter() {
        s.append_pair(k, v);
    }
    s.finish()
}

/// The value of the last cookie (or query parameter) named `name`.
pub open spec fn last_value(pairs: Seq<(Seq<char>, Seq<char>)>, name: Seq<char>) -> Option<Seq<char>>
    decreases pairs.len(),
{
    if pairs.len() == 0 {
        None
    } else if pairs.last().0 == name {
        Some(pairs.last().1)
    } else {
        last_value(pairs.drop_last(), name)
    }
}

pub open spec fn pairs_view(pairs: Seq<(String, String)>) -> Seq<(Seq<char>, Seq<char>)> {
    pairs.map_values(|p: (String, String)| (p.0@, p.1@))
}

fn last_value_of(pairs: &Vec<(String, String)>, name: &str) -> (r: Option<String>)
    ensures
        match r {
            Some(v) => last_value(pairs_view(pairs@), name@) == Some(v@),
            None => last_value(pairs_view(pairs@), name@) is None,
        },
{
    let mut r: Option<String> = None;
    let mut i: usize = 0;
    proof {
        assert(pairs_view(pairs@).take(0) =~= Seq::<(Seq<char>, Seq<char>)>::empty());
    }
    while i < pairs.len()
        invariant
            i <= pairs.len(),
            match r {
                Some(v) => last_value(pairs_view(pairs@).take(i as int), name@) == Some(v@),
                None => last_value(pairs_view(pairs@).take(i as int), name@) is None,
            },
        decreases pairs.len() - i,
    {
        proof {
            assert(pairs_view(pairs@).take(i + 1).drop_last() =~= pairs_view(pairs@).take(i as int));
            assert(pairs_view(pairs@).take(i + 1).last() == (pairs@[i as int].0@, pairs@[i as int].1@));
        }
        if crate::util::str_equal(pairs[i].0.as_str(), name) {
            r = Some(pairs[i].1.clone());
        }
        i = i + 1;
    }
    proof {
        assert(pairs_view(pairs@).take(i as int) =~= pairs_view(pairs@));
    }
    r
}

/// Whether the `auth` and `name` cookies prove a login: `auth` is the
/// hexadecimal HMAC-SHA1 of `name` under the view's secret.
pub open spec fn cookie_authenticated(secret: Seq<char>, cookies: Seq<(Seq<char>, Seq<char>)>) -> bool {
    match (last_value(cookies, "auth"@), last_value(cookies, "name"@)) {
        (Some(a), Some(n)) => match hex_decode(encode_utf8(a)) {
            Some(sig) => sig == hmac_sha1(encode_utf8(secret), encode_utf8(n)),
            None => false,
        },
        _ => false,
    }
}

/// The bytes of the `name` cookie, the text that the `auth` cookie signs
/// (empty when there is none).
pub open spec fn cookie_name_bytes(cookies: Seq<(Seq<char>, Seq<char>)>) -> Seq<u8> {
    match last_value(cookies, "name"@) {
        Some(n) => encode_utf8(n),
        None => seq![],
    }
}

/// Whether the `auth` cookie is the hexadecimal text of `expected`, the
/// HMAC computed of the `name` cookie (`None` when none could be computed),
/// both cookies being present.
pub open spec fn cookies_signed_by(cookies: Seq<(Seq<char>, Seq<char>)>, expected: Option<Seq<u8>>) -> bool {
    match (last_value(cookies, "auth"@), last_value(cookies, "name"@)) {
        (Some(a), Some(_)) => match hex_decode(encode_utf8(a)) {
            Some(sig) => expected == Some(sig),
            None => false,
        },
        _ => false,
    }
}

/// The view of an optional byte vector.
pub open spec fn bytes_opt_view(v: Option<Vec<u8>>) -> Option<Seq<u8>> {
    match v {
        Some(b) => Some(b@),
        None => None,
    }
}

/// Whether the cookies are signed by `expected`; see [`cookies_signed_by`].
pub fn cookies_signed(cookies: &Vec<(String, String)>, expected: &Option<Vec<u8>>) -> (r: bool)
    ensures
        r == cookies_signed_by(pairs_view(cookies@), bytes_opt_view(*expected)),
{
    let auth = last_value_of(cookies, "auth");
    let name = last_value_of(cookies, "name");
    match (auth, name) {
        (Some(auth), Some(_)) => match crate::util::crypto::from_hex(auth.as_str().as_bytes()) {
            Some(sig) => hmac_matches(expected, sig.as_slice()),
            None => false,
        },
        _ => false,
    }
}

/// What a request that the cookies do not authenticate is answered, given
/// `state`, the HMAC computed of the user's address (`None` when none
/// could be computed): a request whose target is not a path is refused; a
/// return from GitHub's login page carries its `code` and `state`; any
/// other request is sent to GitHub's login page with that HMAC as state.
pub open spec fn unauthenticated_step(r: CheckStep, app_id: Seq<char>, path: Option<Seq<char>>, state: Option<Seq<u8>>) -> bool {
    match path {
        None => r is NotAbsolutePath,
        Some(p) => if is_login_path(p) {
            let q = form_urlencoded_parse_result(encode_utf8(p).skip(11));
            match (last_value(q, "code"@), last_value(q, "state"@)) {
                (Some(code), Some(st)) => r matches CheckStep::Login(c, s) && c@ == code && s@ == st,
                _ => r is MissingGithubParam,
            }
        } else {
            match state {
                Some(h) => r matches CheckStep::Redirect(loc) && loc@ == authorize_url(app_id, hex_encode(h)),
                None => r is SigningFailed,
            }
        },
    }
}

/// What GitHub authentication answers a request, given the HMACs computed
/// of the `name` cookie and of the user's address.
pub open spec fn github_step(
    r: CheckStep,
    app_id: Seq<char>,
    cookies: Seq<(Seq<char>, Seq<char>)>,
    path: Option<Seq<char>>,
    cookie_hmac: Option<Seq<u8>>,
    state_hmac: Option<Seq<u8>>,
) -> bool {
    if cookies_signed_by(cookies, cookie_hmac) {
        r is Authenticated
    } else {
        unauthenticated_step(r, app_id, path, state_hmac)
    }
}

/// The bytes of `/_gh_login?`.
pub open spec fn login_prefix() -> Seq<u8> {
    seq![47u8, 95u8, 103u8, 104u8, 95u8, 108u8, 111u8, 103u8, 105u8, 110u8, 63u8]
}

/// The path that GitHub sends a user back to after a login: `/_gh_login?`
/// and a query.
pub open spec fn is_login_path(path: Seq<char>) -> bool {
    encode_utf8(path).len() > 11 && encode_utf8(path).subrange(0, 11) == login_prefix()
}

fn has_login_prefix(bytes: &[u8]) -> (r: bool)
    ensures
        r == (bytes@.len() > 11 && bytes@.subrange(0, 11) == login_prefix()),
{
    if bytes.len() <= 11 {
        return false;
    }
    let prefix: [u8; 11] = [47u8, 95u8, 103u8, 104u8, 95u8, 108u8, 111u8, 103u8, 105u8, 110u8, 63u8];
    assert(prefix@ =~= login_prefix());
    let mut i: usize = 0;
    while i < 11
        invariant
            i <= 11,
            bytes@.len() > 11,
            prefix@ == login_prefix(),
            forall|j: int| 0 <= j < i ==> bytes@[j] == prefix@[j],
        decreases 11 - i,
    {
        if bytes[i] != prefix[i] {
            assert(bytes@.subrange(0, 11)[i as int] != login_prefix()[i as int]);
            return false;
        }
        i = i + 1;
    }
    assert(bytes@.subrange(0, 11) =~= login_prefix());
    true
}

/// Where to send a user to log in with GitHub: the application's
/// authorization page, with a state that only this server can make for the
/// user's address.
pub open spec fn authorize_url(app_id: Seq<char>, state: Seq<char>) -> Seq<char> {
    "https://github.com/login/oauth/authorize?client_id="@ + app_id + "&state="@ + state + "&scope=read:org"@
}

/// What to do with a request to the view.
pub enum CheckStep {
    /// Serve it.
    Authenticated,
    /// Answer 400: the request's target is not a path.
    NotAbsolutePath,
    /// Answer 302 to this location, GitHub's login page.
    Redirect(String),
    /// GitHub sent the user back with these `code` and `state` parameters;
    /// go on with [`AuthManager::check_login`].
    Login(String, String),
    /// Answer 400: GitHub sent the user back without `code` or `state`.
    MissingGithubParam,
    /// Answer 500: OpenSSL could not sign.
    SigningFailed,
}

/// What a login through GitHub comes to, once GitHub has said whether the
/// user belongs to the organization.
pub enum LoginOutcome {
    /// Answer 302 to `.`, setting the `auth` and `name` cookies.
    Found(String, String),
    /// Answer 403.
    Forbidden,
    /// Answer 500: OpenSSL could not sign.
    SigningFailed,
}

/// The view of an optional text.
pub open spec fn str_opt_view(p: Option<&str>) -> Option<Seq<char>> {
    match p {
        Some(s) => Some(s@),
        None => None,
    }
}

/// What a request that the cookies do not authenticate is answered; see
/// [`unauthenticated_step`]. `state` is the HMAC computed of the user's
/// address.
pub fn answer_unauthenticated(app_id: &str, path: Option<&str>, state: Option<Vec<u8>>) -> (r: CheckStep)
    ensures
        unauthenticated_step(r, app_id@, str_opt_view(path), bytes_opt_view(state)),
{
    let path = match path {
        Some(p) => p,
        None => return CheckStep::NotAbsolutePath,
    };
    let bytes = path.as_bytes();
    if has_login_prefix(bytes) {
        let mut query: Vec<u8> = Vec::new();
        let mut i: usize = 11;
        while i < bytes.len()
            invariant
                11 <= i <= bytes@.len(),
                query@ == bytes@.subrange(11, i as int),
            decreases bytes.len() - i,
        {
            query.push(bytes[i]);
            proof {
                assert(bytes@.subrange(11, i + 1) =~= bytes@.subrange(11, i as int).push(bytes@[i as int]));
            }
            i = i + 1;
        }
        proof {
            assert(query@ =~= encode_utf8(path@).skip(11));
        }
        let params = form_urlencoded_parse(query.as_slice());
        let code = last_value_of(&params, "code");
        let state = last_value_of(&params, "state");
        match (code, state) {
            (Some(code), Some(state)) => CheckStep::Login(code, state),
            _ => CheckStep::MissingGithubParam,
        }
    } else {
        match state {
            Some(sig) => {
                let state = crate::util::crypto::to_hex(sig.as_slice());
                let mut loc = String::from_str("https://github.com/login/oauth/authorize?client_id=");
                loc.append(app_id);
                loc.append("&state=");
                loc.append(state.as_str());
                loc.append("&scope=read:org");
                CheckStep::Redirect(loc)
            },
            None => CheckStep::SigningFailed,
        }
    }
}

impl<'a> AuthManager<'a> {
    /// Whether the cookies prove a login: the HMAC of the `name` cookie is
    /// computed and compared with the `auth` cookie.
    fn cookie_check(&self, cookies: &Vec<(String, String)>) -> (r: bool)
        requires
            encode_utf8(self.secret@).len() <= i32::MAX,
        ensures
            exists|h: Option<Seq<u8>>|
                #![trigger cookies_signed_by(pairs_view(cookies@), h)]
                hmac_outcome(h, encode_utf8(self.secret@), cookie_name_bytes(pairs_view(cookies@)))
                    && r == cookies_signed_by(pairs_view(cookies@), h),
            r ==> cookie_authenticated(self.secret@, pairs_view(cookies@)),
    {
        let name = last_value_of(cookies, "name");
        match name {
            Some(name) => {
                let expected = generate_sha1_hmac(self.secret.as_bytes(), name.as_str().as_bytes());
                let r = cookies_signed(cookies, &expected);
                proof {
                    let h = bytes_opt_view(expected);
                    assert(hmac_outcome(h, encode_utf8(self.secret@), cookie_name_bytes(pairs_view(cookies@))));
                    assert(r == cookies_signed_by(pairs_view(cookies@), h));
                }
                r
            },
            None => {
                proof {
                    let h: Option<Seq<u8>> = None;
                    assert(hmac_outcome(h, encode_utf8(self.secret@), cookie_name_bytes(pairs_view(cookies@))));
                    assert(!cookies_signed_by(pairs_view(cookies@), h));
                }
                false
            },
        }
    }

    /// What to do with a request from `remote_ip`, with these cookies, to
    /// `path` (`None` when the request's target is not a path). Without
    /// authentication every request is served. With GitHub's, the answer is
    /// [`github_step`] of the HMACs that OpenSSL computed of the `name`
    /// cookie and of `remote_ip`, each the true HMAC unless OpenSSL failed.
    pub fn check(&self, cookies: &Vec<(String, String)>, path: Option<&str>, remote_ip: &str) -> (r: CheckStep)
        requires
            encode_utf8(self.secret@).len() <= i32::MAX,
        ensures
            match self.auth {
                AuthRef::NoAuth => r is Authenticated,
                AuthRef::Github(app_id, _, _) => {
                    &&& exists|ch: Option<Seq<u8>>, sh: Option<Seq<u8>>|
                        #![trigger github_step(r, app_id@, pairs_view(cookies@), str_opt_view(path), ch, sh)]
                        hmac_outcome(ch, encode_utf8(self.secret@), cookie_name_bytes(pairs_view(cookies@)))
                            && hmac_outcome(sh, encode_utf8(self.secret@), encode_utf8(remote_ip@))
                            && github_step(r, app_id@, pairs_view(cookies@), str_opt_view(path), ch, sh)
                    &&& (r is Authenticated ==> cookie_authenticated(self.secret@, pairs_view(cookies@)))
                },
            },
    {
        match self.auth {
            AuthRef::NoAuth => CheckStep::Authenticated,
            AuthRef::Github(app_id, _, _) => {
                let ghost cv = pairs_view(cookies@);
                let ghost key = encode_utf8(self.secret@);
                let authed = self.cookie_check(cookies);
                let ghost ch = choose|h: Option<Seq<u8>>|
                    #![trigger cookies_signed_by(cv, h)]
                    hmac_outcome(h, key, cookie_name_bytes(cv)) && authed == cookies_signed_by(cv, h);
                if authed {
                    let r = CheckStep::Authenticated;
                    proof {
                        let sh = Some(hmac_sha1(key, encode_utf8(remote_ip@)));
                        assert(github_step(r, app_id@, cv, str_opt_view(path), ch, sh));
                    }
                    return r;
                }
                let state = generate_sha1_hmac(self.secret.as_bytes(), remote_ip.as_bytes());
                let ghost sh = bytes_opt_view(state);
                let r = answer_unauthenticated(app_id, path, state);
                proof {
                    assert(github_step(r, app_id@, cv, str_opt_view(path), ch, sh));
                }
                r
            },
        }
    }

    /// The second step of a login, once GitHub sent the user back with
    /// `code` and `state`: the state must be the signature of the user's
    /// address; then the code is traded for a token. The answer is
    /// [`login_step`] of the HMAC that OpenSSL computed of `remote_ip`, the
    /// true HMAC unless OpenSSL failed.
    pub fn check_login(&self, code: &str, state: &str, remote_ip: &str) -> (r: LoginStep)
        requires
            self.auth is Github,
            encode_utf8(self.secret@).len() <= i32::MAX,
        ensures
            exists|h: Option<Seq<u8>>|
                #![trigger login_step_result(r, self.auth->Github_0@, self.auth->Github_1@, code@, state@, h)]
                hmac_outcome(h, encode_utf8(self.secret@), encode_utf8(remote_ip@))
                    && login_step_result(r, self.auth->Github_0@, self.auth->Github_1@, code@, state@, h),
            match hex_decode(encode_utf8(state@)) {
                None => r is InvalidGithubStateParam,
                Some(sig) => if sig == hmac_sha1(encode_utf8(self.secret@), encode_utf8(remote_ip@)) {
                    r is BadGithubStateParam || (r matches LoginStep::RequestToken(body) && body@
                        == form_urlencoded_serialize_result(
                        token_request_pairs(self.auth->Github_0@, self.auth->Github_1@, code@, state@),
                    ))
                } else {
                    r is BadGithubStateParam
                },
            },
    {
        let expected = generate_sha1_hmac(self.secret.as_bytes(), remote_ip.as_bytes());
        let ghost h = bytes_opt_view(expected);
        match self.auth {
            AuthRef::Github(app_id, app_secret, _) => {
                let r = login_step(app_id, app_secret, code, state, &expected);
                proof {
                    assert(login_step_result(r, app_id@, app_secret@, code@, state@, h));
                }
                r
            },
            AuthRef::NoAuth => LoginStep::BadGithubStateParam,
        }
    }

    /// The last step of a login, once GitHub said whether `user` belongs to
    /// the organization: a member gets the cookies that prove the login.
    pub fn finish_login(&self, user: &str, is_member: bool) -> (r: LoginOutcome)
        requires
            encode_utf8(self.secret@).len() <= i32::MAX,
        ensures
            !is_member ==> r is Forbidden,
            is_member ==> r is SigningFailed || (r matches LoginOutcome::Found(auth, name) && name@ == user@ && auth@
                == hex_encode(hmac_sha1(encode_utf8(self.secret@), encode_utf8(user@)))),
    {
        if !is_member {
            return LoginOutcome::Forbidden;
        }
        match generate_sha1_hmac(self.secret.as_bytes(), user.as_bytes()) {
            Some(sig) => LoginOutcome::Found(crate::util::crypto::to_hex(sig.as_slice()), String::from_str(user)),
            None => LoginOutcome::SigningFailed,
        }
    }
}

/// The form that trades a login code for a token.
pub open spec fn token_request_pairs(app_id: Seq<char>, app_secret: Seq<char>, code: Seq<char>, state: Seq<char>) -> Seq<
    (Seq<char>, Seq<char>),
> {
    seq![("client_id"@, app_id), ("client_secret"@, app_secret), ("code"@, code), ("state"@, state)]
}

/// What the second step of a login answers, given `expected`, the HMAC
/// computed of the user's address (`None` when none could be computed):
/// a `state` that is not hexadecimal is invalid; one that is not `expected`
/// is refused; otherwise the code is traded for a token.
pub open spec fn login_step_result(
    r: LoginStep,
    app_id: Seq<char>,
    app_secret: Seq<char>,
    code: Seq<char>,
    state: Seq<char>,
    expected: Option<Seq<u8>>,
) -> bool {
    match hex_decode(encode_utf8(state)) {
        None => r is InvalidGithubStateParam,
        Some(sig) => if expected == Some(sig) {
            r matches LoginStep::RequestToken(body) && body@ == form_urlencoded_serialize_result(
                token_request_pairs(app_id, app_secret, code, state),
            )
        } else {
            r is BadGithubStateParam
        },
    }
}

/// The second step of a login; see [`login_step_result`].
pub fn login_step(app_id: &str, app_secret: &str, code: &str, state: &str, expected: &Option<Vec<u8>>) -> (r: LoginStep)
    ensures
        login_step_result(r, app_id@, app_secret@, code@, state@, bytes_opt_view(*expected)),
{
    let sig = match crate::util::crypto::from_hex(state.as_bytes()) {
        Some(sig) => sig,
        None => return LoginStep::InvalidGithubStateParam,
    };
    if !hmac_matches(expected, sig.as_slice()) {
        return LoginStep::BadGithubStateParam;
    }
    let mut pairs: Vec<(String, String)> = Vec::new();
    pairs.push((String::from_str("client_id"), String::from_str(app_id)));
    pairs.push((String::from_str("client_secret"), String::from_str(app_secret)));
    pairs.push((String::from_str("code"), String::from_str(code)));
    pairs.push((String::from_str("state"), String::from_str(state)));
    proof {
        assert(pairs_view(pairs@) =~= token_request_pairs(app_id@, app_secret@, code@, state@));
    }
    LoginStep::RequestToken(form_urlencoded_serialize(&pairs))
}

/// The second step of a login.
pub enum LoginStep {
    /// Answer 500: the `state` is not hexadecimal.
    InvalidGithubStateParam,
    /// Answer 400: the `state` was not made for this user's address.
    BadGithubStateParam,
    /// Post this form to GitHub's token endpoint.
    RequestToken(String),
}

/// Where to ask GitHub who the holder of `token` is.
pub fn user_url(token: &str) -> (r: String)
    ensures
        r@ == "https://api.github.com/user?access_token="@ + token@,
{
    let mut r = String::from_str("https://api.github.com/user?access_token=");
    r.append(token);
    r
}

/// Where to ask GitHub whether `user` belongs to the organization `org`.
pub fn membership_url(org: &str, user: &str, token: &str) -> (r: String)
    ensures
        r@ == "https://api.github.com/org/"@ + org@ + "/members/"@ + user@ + "?access_token="@ + token@,
{
    let mut r = String::from_str("https://api.github.com/org/");
    r.append(org);
    r.append("/members/");
    r.append(user);
    r.append("?access_token=");
    r.append(token);
    r
}

/// The cookies that a completed login sets ([`AuthManager::finish_login`])
/// prove that login to every later request ([`AuthManager::check`]).
pub proof fn lemma_login_cookies_accepted(secret: Seq<char>, user: Seq<char>)
    ensures
        cookie_authenticated(
            secret,
            seq![("auth"@, hex_encode(hmac_sha1(encode_utf8(secret), encode_utf8(user)))), ("name"@, user)],
        ),
{
    let sig = hmac_sha1(encode_utf8(secret), encode_utf8(user));
    let cookies = seq![("auth"@, hex_encode(sig)), ("name"@, user)];
    reveal_strlit("auth");
    reveal_strlit("name");
    assert("auth"@ != "name"@) by {
        assert("auth"@[0] != "name"@[0]);
    }
    assert(cookies.drop_last() =~= seq![("auth"@, hex_encode(sig))]);
    assert(last_value(cookies, "name"@) == Some(user));
    assert(last_value(cookies.drop_last(), "auth"@) == Some(hex_encode(sig)));
    assert(last_value(cookies, "auth"@) == Some(hex_encode(sig)));
    lemma_hex_round_trip(sig);
}

} // verus!
