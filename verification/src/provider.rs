//! Provider bootstrap decisions: base-URL normalization, credential lookup,
//! the wire APIs a configured provider is routed through, and the
//! placeholder providers used when no provider is usable.

use vstd::prelude::*;
use vstd::string::StrSliceExecFns;
use vstd::string::StringExecFns;

use crate::text::{chars_of, concat_text, text_equals};

verus! {

broadcast use vstd::string::group_string_axioms;

/// The message every request to the missing provider fails with.
pub const NO_PROVIDER_CONFIGURED_MESSAGE: &'static str = "No provider configured. Run `devo onboard` to complete setup.";

/// Wire protocol of a provider endpoint.
#[derive(Debug, Clone, Copy, PartialEq, Eq, Structural)]
pub enum ProviderWireApi {
    AnthropicMessages,
    OpenAIChatCompletions,
    OpenAIResponses,
}

/// Number of trailing `/` characters.
pub open spec fn trailing_slashes(s: Seq<char>) -> nat
    decreases s.len(),
{
    if s.len() > 0 && s.last() == '/' {
        1 + trailing_slashes(s.drop_last())
    } else {
        0
    }
}

/// `s` without its trailing slashes.
pub open spec fn trim_trailing_slashes(s: Seq<char>) -> Seq<char> {
    s.subrange(0, s.len() - trailing_slashes(s))
}

/// Whether `://` starts at index `i` of `s`.
pub open spec fn scheme_sep_at(s: Seq<char>, i: int) -> bool {
    0 <= i && i + 3 <= s.len() && s[i] == ':' && s[i + 1] == '/' && s[i + 2] == '/'
}

/// Whether the part of `s` after its first `://` contains a `/`.
pub open spec fn has_explicit_path(s: Seq<char>) -> bool {
    let i = choose|i: int| scheme_sep_at(s, i) && forall|k: int| 0 <= k < i ==> !scheme_sep_at(s, k);
    s.subrange(i + 3, s.len() as int).contains('/')
}

/// The normalized OpenAI base URL: trailing slashes removed, and `/v1`
/// appended when the URL has a scheme but no path.
pub open spec fn normalized_openai_base_url(url: Seq<char>) -> Seq<char> {
    let trimmed = trim_trailing_slashes(url);
    if !(exists|i: int| scheme_sep_at(trimmed, i)) || has_explicit_path(trimmed) {
        trimmed
    } else {
        trimmed + "/v1"@
    }
}

proof fn lemma_trailing_slashes(s: Seq<char>, j: int)
    requires
        0 <= j <= s.len(),
        forall|k: int| j <= k < s.len() ==> s[k] == '/',
        j == 0 || s[j - 1] != '/',
    ensures
        trailing_slashes(s) == s.len() - j,
    decreases s.len() - j,
{
    if j < s.len() {
        let t = s.drop_last();
        assert forall|k: int| j <= k < t.len() implies t[k] == '/' by {
            assert(t[k] == s[k]);
        }
        if j > 0 {
            assert(t[j - 1] == s[j - 1]);
        }
        lemma_trailing_slashes(t, j);
    }
}

/// Index just past the last character of `chars` that is not a `/`.
fn trailing_slash_start(chars: &Vec<char>) -> (end: usize)
    ensures
        end == chars@.len() - trailing_slashes(chars@),
{
    let mut end: usize = chars.len();
    while end > 0 && chars[end - 1] == '/'
        invariant
            end <= chars@.len(),
            forall|k: int| end <= k < chars@.len() ==> chars@[k] == '/',
        decreases end,
    {
        end -= 1;
    }
    proof {
        lemma_trailing_slashes(chars@, end as int);
    }
    end
}

/// Index of the first `://` within `chars[..end]`.
fn find_scheme_sep(chars: &Vec<char>, end: usize) -> (found: Option<usize>)
    requires
        end <= chars@.len(),
    ensures
        match found {
            Some(i) => scheme_sep_at(chars@.subrange(0, end as int), i as int)
                && forall|k: int| 0 <= k < i ==> !scheme_sep_at(chars@.subrange(0, end as int), k),
            None => forall|k: int| !scheme_sep_at(chars@.subrange(0, end as int), k),
        },
{
    let ghost t = chars@.subrange(0, end as int);
    if end < 3 {
        return None;
    }
    let mut i: usize = 0;
    while i <= end - 3
        invariant
            3 <= end <= chars@.len(),
            t == chars@.subrange(0, end as int),
            forall|k: int| 0 <= k < i ==> !scheme_sep_at(t, k),
        decreases end - i,
    {
        if chars[i] == ':' && chars[i + 1] == '/' && chars[i + 2] == '/' {
            proof {
                assert(scheme_sep_at(t, i as int));
            }
            return Some(i);
        }
        proof {
            assert(!scheme_sep_at(t, i as int));
        }
        i += 1;
    }
    None
}

/// Whether `chars[from..end]` holds a `/`.
fn has_slash_between(chars: &Vec<char>, from: usize, end: usize) -> (found: bool)
    requires
        from <= end <= chars@.len(),
    ensures
        found == chars@.subrange(from as int, end as int).contains('/'),
{
    let ghost r = chars@.subrange(from as int, end as int);
    let mut j: usize = from;
    while j < end
        invariant
            from <= j <= end <= chars@.len(),
            r == chars@.subrange(from as int, end as int),
            forall|k: int| from <= k < j ==> chars@[k] != '/',
        decreases end - j,
    {
        if chars[j] == '/' {
            proof {
                assert(r[j - from] == '/');
            }
            return true;
        }
        j += 1;
    }
    proof {
        assert forall|k: int| 0 <= k < r.len() implies r[k] != '/' by {
            assert(r[k] == chars@[k + from]);
        }
    }
    false
}

/// Whether `s` ends with a `/`.
pub open spec fn ends_with_slash(s: Seq<char>) -> bool {
    s.len() > 0 && s.last() == '/'
}

/// Trimming trailing slashes leaves none, and changes nothing of a text
/// that has none.
proof fn lemma_trim_trailing_slashes(s: Seq<char>)
    ensures
        trailing_slashes(s) <= s.len(),
        !ends_with_slash(trim_trailing_slashes(s)),
        !ends_with_slash(s) ==> trim_trailing_slashes(s) == s,
    decreases s.len(),
{
    if ends_with_slash(s) {
        let t = s.drop_last();
        lemma_trim_trailing_slashes(t);
        assert(trailing_slashes(s) == 1 + trailing_slashes(t));
        assert(trim_trailing_slashes(s) =~= trim_trailing_slashes(t));
    } else {
        assert(s.subrange(0, s.len() as int) =~= s);
    }
}

/// A text with a `://` has a first one.
proof fn lemma_first_scheme_sep_exists(s: Seq<char>, w: int)
    requires
        scheme_sep_at(s, w),
    ensures
        exists|c: int| scheme_sep_at(s, c) && forall|k: int| 0 <= k < c ==> !scheme_sep_at(s, k),
    decreases w,
{
    if exists|k: int| 0 <= k < w && scheme_sep_at(s, k) {
        let k = choose|k: int| 0 <= k < w && scheme_sep_at(s, k);
        lemma_first_scheme_sep_exists(s, k);
    } else {
        assert(scheme_sep_at(s, w) && forall|k: int| 0 <= k < w ==> !scheme_sep_at(s, k));
    }
}

/// Appending `/v1` to a URL with a scheme gives it an explicit path.
proof fn lemma_appended_path_is_explicit(t: Seq<char>, w: int)
    requires
        scheme_sep_at(t, w),
    ensures
        scheme_sep_at(t + "/v1"@, w),
        has_explicit_path(t + "/v1"@),
{
    reveal_strlit("/v1");
    let r = t + "/v1"@;
    let n = t.len() as int;
    assert(scheme_sep_at(r, w));
    lemma_first_scheme_sep_exists(t, w);
    let c = choose|c: int| scheme_sep_at(t, c) && forall|k: int| 0 <= k < c ==> !scheme_sep_at(t, k);
    assert(scheme_sep_at(r, c));
    assert forall|k: int| 0 <= k < c implies !scheme_sep_at(r, k) by {
        if scheme_sep_at(r, k) {
            assert(scheme_sep_at(t, k));
        }
    }
    let d = choose|d: int| scheme_sep_at(r, d) && forall|k: int| 0 <= k < d ==> !scheme_sep_at(r, k);
    assert(d == c) by {
        if d < c {
            assert(!scheme_sep_at(r, d));
        }
        if d > c {
            assert(!scheme_sep_at(r, c));
        }
    }
    assert(r[n] == '/');
    assert(r.subrange(c + 3, r.len() as int)[n - c - 3] == '/');
}

/// Normalizing an OpenAI base URL gives a URL that ends in no `/` and that
/// normalizing again leaves as it is.
#[verifier::rlimit(60)]
pub proof fn lemma_normalized_base_url_is_stable(url: Seq<char>)
    ensures
        !ends_with_slash(normalized_openai_base_url(url)),
        normalized_openai_base_url(normalized_openai_base_url(url)) == normalized_openai_base_url(url),
{
    let trimmed = trim_trailing_slashes(url);
    let r = normalized_openai_base_url(url);
    lemma_trim_trailing_slashes(url);
    let keeps = !(exists|i: int| scheme_sep_at(trimmed, i)) || has_explicit_path(trimmed);
    if keeps {
        assert(r == trimmed);
        lemma_trim_trailing_slashes(r);
        assert(trim_trailing_slashes(r) == r);
    } else {
        let w = choose|i: int| scheme_sep_at(trimmed, i);
        assert(scheme_sep_at(trimmed, w));
        lemma_v1_suffix(trimmed);
        assert(r == trimmed + "/v1"@);
        lemma_trim_trailing_slashes(r);
        lemma_appended_path_is_explicit(trimmed, w);
        assert(trim_trailing_slashes(r) == r);
        assert(exists|i: int| scheme_sep_at(r, i));
    }
}

/// `t` followed by `/v1` ends in `1`.
proof fn lemma_v1_suffix(t: Seq<char>)
    ensures
        !ends_with_slash(t + "/v1"@),
{
    reveal_strlit("/v1");
    assert((t + "/v1"@).last() == '1');
}

/// Normalizes an OpenAI-compatible base URL: explicit paths are kept,
/// bare hosts get `/v1`.
pub fn normalize_openai_base_url(url: &str) -> (normalized: String)
    ensures
        normalized@ == normalized_openai_base_url(url@),
{
    let chars = chars_of(url);
    let end = trailing_slash_start(&chars);
    let ghost trimmed = trim_trailing_slashes(url@);
    let trimmed_str = url.substring_char(0, end);
    match find_scheme_sep(&chars, end) {
        None => trimmed_str.to_owned(),
        Some(i) => {
            let has_path = has_slash_between(&chars, i + 3, end);
            proof {
                let c = choose|c: int| scheme_sep_at(trimmed, c) && forall|k: int| 0 <= k < c ==> !scheme_sep_at(trimmed, k);
                assert(c == i) by {
                    if c < i {
                        assert(!scheme_sep_at(trimmed, c));
                    }
                    if c > i {
                        assert(!scheme_sep_at(trimmed, i as int));
                    }
                }
                assert(trimmed.subrange(i + 3, trimmed.len() as int) =~= chars@.subrange(i + 3, end as int));
            }
            if has_path {
                trimmed_str.to_owned()
            } else {
                concat_text(trimmed_str, "/v1")
            }
        },
    }
}

/// The provider used when no provider is configured: every request fails
/// with [`NO_PROVIDER_CONFIGURED_MESSAGE`].
pub struct MissingProvider;

impl MissingProvider {
    /// The provider's display name.
    pub fn name(&self) -> (name: &'static str)
        ensures
            name@ == "missing-provider"@,
    {
        "missing-provider"
    }

    /// The error every completion request fails with.
    pub fn completion_error(&self) -> (message: String)
        ensures
            message@ == NO_PROVIDER_CONFIGURED_MESSAGE@,
    {
        NO_PROVIDER_CONFIGURED_MESSAGE.to_owned()
    }
}

/// A configured route whose provider could not be built: every request
/// fails with the construction error.
pub struct UnavailableProvider {
    message: String,
}

impl UnavailableProvider {
    /// A provider that fails every request with `message`.
    pub fn new(message: String) -> (provider: Self)
        ensures
            provider.message() == message@,
    {
        Self { message }
    }

    /// The construction error this provider reports.
    pub closed spec fn message(&self) -> Seq<char> {
        self.message@
    }

    /// The provider's display name.
    pub fn name(&self) -> (name: &'static str)
        ensures
            name@ == "unavailable-provider"@,
    {
        "unavailable-provider"
    }

    /// The error every completion request fails with.
    pub fn completion_error(&self) -> (message: String)
        ensures
            message@ == self.message(),
    {
        self.message.clone()
    }
}

/// What a provider adapter is built from.
pub struct ProviderAdapterPlan {
    pub wire_api: ProviderWireApi,
    pub base_url: String,
    pub api_key: Option<String>,
}

/// The message of a provider build that lacks a required API key.
pub const ANTHROPIC_KEY_REQUIRED_MESSAGE: &'static str = "anthropic provider requires an API key";

/// Plans a provider adapter: Anthropic needs an API key and defaults to
/// `https://api.anthropic.com`; the OpenAI wire APIs default to
/// `https://api.openai.com` and normalize the base URL.
pub fn provider_adapter_plan(
    wire_api: ProviderWireApi,
    base_url: Option<String>,
    api_key: Option<String>,
) -> (plan: Result<ProviderAdapterPlan, String>)
    ensures
        match plan {
            Ok(p) => {
                &&& p.wire_api == wire_api
                &&& p.api_key == api_key
                &&& wire_api == ProviderWireApi::AnthropicMessages ==> api_key is Some && p.base_url@ == match base_url {
                    Some(b) => b@,
                    None => "https://api.anthropic.com"@,
                }
                &&& wire_api != ProviderWireApi::AnthropicMessages ==> p.base_url@ == normalized_openai_base_url(
                    match base_url {
                        Some(b) => b@,
                        None => "https://api.openai.com"@,
                    },
                )
            },
            Err(e) => wire_api == ProviderWireApi::AnthropicMessages && api_key is None
                && e@ == ANTHROPIC_KEY_REQUIRED_MESSAGE@,
        },
{
    match wire_api {
        ProviderWireApi::AnthropicMessages => {
            if api_key.is_none() {
                return Err(ANTHROPIC_KEY_REQUIRED_MESSAGE.to_owned());
            }
            let base_url = match base_url {
                Some(b) => b,
                None => "https://api.anthropic.com".to_owned(),
            };
            Ok(ProviderAdapterPlan { wire_api, base_url, api_key })
        },
        _ => {
            let base = match base_url {
                Some(b) => b,
                None => "https://api.openai.com".to_owned(),
            };
            let base_url = normalize_openai_base_url(base.as_str());
            Ok(ProviderAdapterPlan { wire_api, base_url, api_key })
        },
    }
}

/// The wire APIs a provider is routed through: none when it is disabled;
/// otherwise its own wire API, then each model's wire API not yet listed,
/// in order; OpenAI chat completions when none is configured.
pub open spec fn route_wire_apis(
    enabled: Option<bool>,
    provider_wire_api: Option<ProviderWireApi>,
    model_wire_apis: Seq<Option<ProviderWireApi>>,
) -> Seq<ProviderWireApi> {
    if enabled == Some(false) {
        Seq::empty()
    } else {
        let listed = collect_wire_apis(
            match provider_wire_api {
                Some(w) => seq![w],
                None => Seq::empty(),
            },
            model_wire_apis,
        );
        if listed.len() == 0 {
            seq![ProviderWireApi::OpenAIChatCompletions]
        } else {
            listed
        }
    }
}

/// `start` extended by each listed wire API it does not hold yet.
pub open spec fn collect_wire_apis(start: Seq<ProviderWireApi>, apis: Seq<Option<ProviderWireApi>>) -> Seq<ProviderWireApi>
    decreases apis.len(),
{
    if apis.len() == 0 {
        start
    } else {
        let prev = collect_wire_apis(start, apis.drop_last());
        match apis.last() {
            Some(w) => if prev.contains(w) {
                prev
            } else {
                prev.push(w)
            },
            None => prev,
        }
    }
}

/// The wire APIs a configured provider is routed through.
pub fn provider_route_wire_apis(
    enabled: Option<bool>,
    provider_wire_api: Option<ProviderWireApi>,
    model_wire_apis: &Vec<Option<ProviderWireApi>>,
) -> (apis: Vec<ProviderWireApi>)
    ensures
        apis@ == route_wire_apis(enabled, provider_wire_api, model_wire_apis@),
{
    let mut apis: Vec<ProviderWireApi> = Vec::new();
    if enabled == Some(false) {
        return apis;
    }
    if let Some(w) = provider_wire_api {
        apis.push(w);
    }
    let ghost start = apis@;
    let mut i: usize = 0;
    while i < model_wire_apis.len()
        invariant
            i <= model_wire_apis.len(),
            apis@ == collect_wire_apis(start, model_wire_apis@.take(i as int)),
        decreases model_wire_apis.len() - i,
    {
        proof {
            assert(model_wire_apis@.take(i + 1).drop_last() =~= model_wire_apis@.take(i as int));
        }
        if let Some(w) = model_wire_apis[i] {
            let mut present = false;
            let mut k: usize = 0;
            while k < apis.len()
                invariant
                    k <= apis.len(),
                    present == apis@.take(k as int).contains(w),
                decreases apis.len() - k,
            {
                proof {
                    let t1 = apis@.take(k + 1);
                    let t0 = apis@.take(k as int);
                    assert(t1 =~= t0.push(apis@[k as int]));
                    if t1.contains(w) {
                        let j = choose|j: int| 0 <= j < t1.len() && t1[j] == w;
                        if j < k {
                            assert(t0[j] == w);
                        }
                    }
                    if t0.contains(w) {
                        let j = choose|j: int| 0 <= j < t0.len() && t0[j] == w;
                        assert(t1[j] == w);
                    }
                    if apis@[k as int] == w {
                        assert(t1[k as int] == w);
                    }
                }
                if apis[k] == w {
                    present = true;
                }
                k += 1;
            }
            proof {
                assert(apis@.take(apis@.len() as int) =~= apis@);
            }
            if !present {
                apis.push(w);
            }
        }
        i += 1;
    }
    proof {
        assert(model_wire_apis@.take(model_wire_apis@.len() as int) =~= model_wire_apis@);
        assert(start == match provider_wire_api {
            Some(w) => seq![w],
            None => Seq::<ProviderWireApi>::empty(),
        });
    }
    if apis.len() == 0 {
        apis.push(ProviderWireApi::OpenAIChatCompletions);
        proof {
            assert(apis@ =~= seq![ProviderWireApi::OpenAIChatCompletions]);
        }
    }
    apis
}

/// One credential stored in the user's auth file.
pub struct AuthCredential {
    pub id: String,
    pub value: String,
}

/// Index of the first credential with identifier `id`, if any.
pub open spec fn credential_index(credentials: Seq<AuthCredential>, id: Seq<char>) -> Option<int> {
    if exists|i: int| 0 <= i < credentials.len() && credentials[i].id@ == id {
        Some(choose|i: int| 0 <= i < credentials.len() && credentials[i].id@ == id
            && forall|k: int| 0 <= k < i ==> credentials[k].id@ != id)
    } else {
        None
    }
}

/// The error of a provider naming a credential the auth file lacks.
pub open spec fn missing_credential_message(provider_id: Seq<char>, credential_id: Seq<char>) -> Seq<char> {
    "provider `"@ + provider_id + "` references missing credential `"@ + credential_id + "` in user auth.json"@
}

/// Resolves a provider's API key through the user's auth file: no key when
/// the provider names no credential, the credential's value when the file
/// has it, an error naming both otherwise.
pub fn resolve_provider_api_key(
    provider_id: &str,
    credential: &Option<String>,
    credentials: &Vec<AuthCredential>,
) -> (key: Result<Option<String>, String>)
    ensures
        match *credential {
            None => key == Ok::<Option<String>, String>(None),
            Some(c) => match credential_index(credentials@, c@) {
                Some(i) => key is Ok && key->Ok_0 is Some && key->Ok_0->0@ == credentials@[i].value@,
                None => key is Err && key->Err_0@ == missing_credential_message(provider_id@, c@),
            },
        },
{
    match credential {
        None => Ok(None),
        Some(credential_id) => lookup_credential(provider_id, credential_id, credentials),
    }
}

fn lookup_credential(
    provider_id: &str,
    credential_id: &String,
    credentials: &Vec<AuthCredential>,
) -> (key: Result<Option<String>, String>)
    ensures
        match credential_index(credentials@, credential_id@) {
            Some(i) => key is Ok && key->Ok_0 is Some && key->Ok_0->0@ == credentials@[i].value@,
            None => key is Err && key->Err_0@ == missing_credential_message(provider_id@, credential_id@),
        },
{
    let mut i: usize = 0;
    while i < credentials.len()
        invariant
            i <= credentials.len(),
            forall|k: int| 0 <= k < i ==> credentials@[k].id@ != credential_id@,
        decreases credentials.len() - i,
    {
        if text_equals(credentials[i].id.as_str(), credential_id.as_str()) {
            proof {
                let cs = credentials@;
                let id = credential_id@;
                assert(cs[i as int].id@ == id);
                assert(exists|j: int| 0 <= j < cs.len() && cs[j].id@ == id
                    && forall|k: int| 0 <= k < j ==> cs[k].id@ != id);
                let c = credential_index(cs, id);
                let j = c->0;
                assert(0 <= j < cs.len() && cs[j].id@ == id && forall|k: int| 0 <= k < j ==> cs[k].id@ != id);
                assert(j == i) by {
                    if j < i {
                        assert(cs[j].id@ != id);
                    }
                    if j > i {
                        assert(cs[i as int].id@ != id);
                    }
                }
                assert(credential_index(credentials@, credential_id@) == Some(i as int));
            }
            let value = credentials[i].value.clone();
            assert(value@ == credentials@[i as int].value@);
            return Ok(Some(value));
        }
        i += 1;
    }
    let mut message = String::from_str("provider `");
    message.append(provider_id);
    message.append("` references missing credential `");
    message.append(credential_id.as_str());
    message.append("` in user auth.json");
    Err(message)
}

/// The default model of a configured provider: `provider/model`.
pub fn provider_model_slug(provider_id: &str, model_id: &str) -> (slug: String)
    ensures
        slug@ == provider_id@ + "/"@ + model_id@,
{
    let mut slug = String::from_str(provider_id);
    slug.append("/");
    slug.append(model_id);
    slug
}

} // verus!
