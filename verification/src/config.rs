//! The authentication test service's configuration: its URLs, the attributes it
//! hands out, and whether it reports a session URL.
use vstd::prelude::*;
use crate::attributes::AttributeMap;
use crate::baseurl::BaseUrl;
use crate::codec::texts;
use crate::text::concatenate;

verus! {

#[verifier::external_type_specification]
#[verifier::external_body]
pub struct ExYamlError(serde_yaml::Error);

/// What can go wrong with the configuration.
#[derive(Debug)]
pub enum ConfigError {
    /// An attribute was asked for that the configuration does not know.
    UnknownAttribute(String),
    /// The configuration could not be read as YAML.
    Yaml(serde_yaml::Error),
    /// A JSON document could not be read or written.
    Json(serde_json::Error),
}

impl From<serde_yaml::Error> for ConfigError {
    fn from(e: serde_yaml::Error) -> (r: ConfigError)
        ensures
            r == ConfigError::Yaml(e),
    {
        ConfigError::Yaml(e)
    }
}

impl vstd::std_specs::convert::FromSpecImpl<serde_yaml::Error> for ConfigError {
    open spec fn obeys_from_spec() -> bool {
        true
    }

    open spec fn from_spec(e: serde_yaml::Error) -> ConfigError {
        ConfigError::Yaml(e)
    }
}

impl From<serde_json::Error> for ConfigError {
    fn from(e: serde_json::Error) -> (r: ConfigError)
        ensures
            r == ConfigError::Json(e),
    {
        ConfigError::Json(e)
    }
}

impl vstd::std_specs::convert::FromSpecImpl<serde_json::Error> for ConfigError {
    open spec fn obeys_from_spec() -> bool {
        true
    }

    open spec fn from_spec(e: serde_json::Error) -> ConfigError {
        ConfigError::Json(e)
    }
}

/// Calls `ToString::to_string` (the `Display` impl) of `serde_yaml::Error`.
/// Nothing is claimed of the text: the error is opaque here.
#[verifier::external_body]
fn yaml_error_text(e: &serde_yaml::Error) -> String {
    e.to_string()
}

/// Calls `ToString::to_string` (the `Display` impl) of `serde_json::Error`.
/// Nothing is claimed of the text: the error is opaque here.
#[verifier::external_body]
fn json_error_text(e: &serde_json::Error) -> String {
    e.to_string()
}

impl ConfigError {
    /// The message shown for this error: `Unknown attribute <name>` for an unknown
    /// attribute, the underlying error's own message otherwise.
    pub fn message(&self) -> (s: String)
        ensures
            self matches ConfigError::UnknownAttribute(a) ==> s@ == "Unknown attribute "@ + a@,
    {
        match self {
            ConfigError::UnknownAttribute(a) => concatenate("Unknown attribute ", a.as_str()),
            ConfigError::Yaml(e) => yaml_error_text(e),
            ConfigError::Json(e) => json_error_text(e),
        }
    }
}

/// The first of `attrs`, from index `i` on, that `known` lacks.
pub open spec fn first_unknown_from(known: Map<Seq<char>, Seq<char>>, attrs: Seq<Seq<char>>, i: int) -> Option<Seq<char>>
    decreases attrs.len() - i,
{
    if i < 0 || i >= attrs.len() {
        None
    } else if !known.dom().contains(attrs[i]) {
        Some(attrs[i])
    } else {
        first_unknown_from(known, attrs, i + 1)
    }
}

/// The first of `attrs` that `known` lacks.
pub open spec fn first_unknown(known: Map<Seq<char>, Seq<char>>, attrs: Seq<Seq<char>>) -> Option<Seq<char>> {
    first_unknown_from(known, attrs, 0)
}

/// Checking attributes: all are known, or the first unknown one is reported.
pub open spec fn verify_outcome(known: Map<Seq<char>, Seq<char>>, attrs: Seq<Seq<char>>) -> Result<(), Seq<char>> {
    match first_unknown(known, attrs) {
        None => Ok(()),
        Some(a) => Err(a),
    }
}

/// Mapping attributes: the known values of exactly the asked attributes, or the first
/// unknown one is reported.
pub open spec fn map_outcome(known: Map<Seq<char>, Seq<char>>, attrs: Seq<Seq<char>>) -> Result<
    Map<Seq<char>, Seq<char>>,
    Seq<char>,
> {
    match first_unknown(known, attrs) {
        None => Ok(known.restrict(attrs.to_set())),
        Some(a) => Err(a),
    }
}

/// The attributes before index `i`.
pub open spec fn prefix_set(attrs: Seq<Seq<char>>, i: int) -> Set<Seq<char>> {
    Set::new(|k: Seq<char>| exists|j: int| 0 <= j < i && attrs[j] == k)
}

/// Nothing from index `i` on is unknown exactly when every attribute from there on is known.
pub proof fn lemma_first_unknown_none(known: Map<Seq<char>, Seq<char>>, attrs: Seq<Seq<char>>, i: int)
    requires
        0 <= i <= attrs.len(),
    ensures
        first_unknown_from(known, attrs, i) is None <==> forall|j: int|
            i <= j < attrs.len() ==> #[trigger] known.dom().contains(attrs[j]),
    decreases attrs.len() - i,
{
    if i < attrs.len() {
        lemma_first_unknown_none(known, attrs, i + 1);
    }
}

/// The configuration as it is read, before anything is derived from it.
pub struct RawConfig {
    pub server_url: BaseUrl,
    pub internal_url: BaseUrl,
    pub attributes: AttributeMap,
    pub with_session: bool,
}

/// The service's configuration.
#[derive(Debug)]
pub struct Config {
    server_url: BaseUrl,
    internal_url: BaseUrl,
    attributes: AttributeMap,
    with_session: bool,
}

/// The view of a [`Config`].
pub struct ConfigView {
    pub server_url: Seq<char>,
    pub internal_url: Seq<char>,
    pub attributes: Map<Seq<char>, Seq<char>>,
    pub with_session: bool,
}

impl View for Config {
    type V = ConfigView;

    closed spec fn view(&self) -> ConfigView {
        ConfigView {
            server_url: self.server_url@,
            internal_url: self.internal_url@,
            attributes: self.attributes@,
            with_session: self.with_session,
        }
    }
}

impl Config {
    /// The configuration that was read.
    pub fn from_raw(raw: RawConfig) -> (r: Config)
        ensures
            r@ == (ConfigView {
                server_url: raw.server_url@,
                internal_url: raw.internal_url@,
                attributes: raw.attributes@,
                with_session: raw.with_session,
            }),
    {
        Config {
            server_url: raw.server_url,
            internal_url: raw.internal_url,
            attributes: raw.attributes,
            with_session: raw.with_session,
        }
    }

    /// Checks that every asked attribute is known; the first unknown one is the error.
    pub fn verify_attributes(&self, attributes: &[String]) -> (r: Result<(), ConfigError>)
        ensures
            match r {
                Ok(()) => verify_outcome(self@.attributes, texts(attributes@)) == Ok::<(), Seq<char>>(()),
                Err(e) => e matches ConfigError::UnknownAttribute(a) && verify_outcome(
                    self@.attributes,
                    texts(attributes@),
                ) == Err::<(), Seq<char>>(a@),
            },
    {
        let ghost attrs = texts(attributes@);
        let n = attributes.len();
        let mut i: usize = 0;
        while i < n
            invariant
                n == attributes@.len(),
                attrs == texts(attributes@),
                i <= n,
                first_unknown(self@.attributes, attrs) == first_unknown_from(self@.attributes, attrs, i as int),
            decreases n - i,
        {
            match self.attributes.get(&attributes[i]) {
                Some(_) => {},
                None => {
                    return Err(ConfigError::UnknownAttribute(attributes[i].clone()));
                },
            }
            i = i + 1;
        }
        Ok(())
    }

    /// The values of the asked attributes; the first unknown one is the error.
    pub fn map_attributes(&self, attributes: &[String]) -> (r: Result<AttributeMap, ConfigError>)
        ensures
            match r {
                Ok(m) => map_outcome(self@.attributes, texts(attributes@)) == Ok::<
                    Map<Seq<char>, Seq<char>>,
                    Seq<char>,
                >(m@),
                Err(e) => e matches ConfigError::UnknownAttribute(a) && map_outcome(
                    self@.attributes,
                    texts(attributes@),
                ) == Err::<Map<Seq<char>, Seq<char>>, Seq<char>>(a@),
            },
    {
        let ghost attrs = texts(attributes@);
        let ghost known = self@.attributes;
        let mut result = AttributeMap::new();
        proof {
            assert(known.restrict(prefix_set(attrs, 0)) =~= Map::empty());
        }
        let n = attributes.len();
        let mut i: usize = 0;
        while i < n
            invariant
                n == attributes@.len(),
                attrs == texts(attributes@),
                known == self@.attributes,
                i <= n,
                first_unknown(known, attrs) == first_unknown_from(known, attrs, i as int),
                result@ == known.restrict(prefix_set(attrs, i as int)),
            decreases n - i,
        {
            match self.attributes.get(&attributes[i]) {
                Some(value) => {
                    result.insert(attributes[i].clone(), value.clone());
                    proof {
                        assert(prefix_set(attrs, i + 1) =~= prefix_set(attrs, i as int).insert(attrs[i as int]));
                        assert(result@ =~= known.restrict(prefix_set(attrs, i + 1)));
                    }
                },
                None => {
                    return Err(ConfigError::UnknownAttribute(attributes[i].clone()));
                },
            }
            i = i + 1;
        }
        proof {
            assert(prefix_set(attrs, n as int) =~= attrs.to_set());
        }
        Ok(result)
    }

    /// The URL under which the service is reached by users.
    pub fn server_url(&self) -> (r: &BaseUrl)
        ensures
            r@ == self@.server_url,
    {
        &self.server_url
    }

    /// The URL under which the service is reached by other services.
    pub fn internal_url(&self) -> (r: &BaseUrl)
        ensures
            r@ == self@.internal_url,
    {
        &self.internal_url
    }

    /// Whether results name a session URL.
    pub fn with_session(&self) -> (r: bool)
        ensures
            r == self@.with_session,
    {
        self.with_session
    }
}

/// Checking and mapping attributes agree: mapping succeeds exactly when checking does,
/// they report the same unknown attribute, and a successful mapping holds exactly the
/// asked attributes, each with its configured value.
pub proof fn law_map_agrees_with_verify(known: Map<Seq<char>, Seq<char>>, attrs: Seq<Seq<char>>)
    ensures
        map_outcome(known, attrs) is Ok <==> verify_outcome(known, attrs) is Ok,
        map_outcome(known, attrs) matches Err(a) ==> verify_outcome(known, attrs) == Err::<(), Seq<char>>(a),
        map_outcome(known, attrs) matches Ok(m) ==> {
            &&& m.dom() =~= attrs.to_set()
            &&& forall|k: Seq<char>| #[trigger] m.dom().contains(k) ==> m[k] == known[k]
        },
{
    lemma_first_unknown_none(known, attrs, 0);
}

/// The attribute reported as unknown is one of the asked attributes, the configuration
/// lacks it, and every attribute asked before it is known.
pub proof fn law_unknown_attribute_is_first(known: Map<Seq<char>, Seq<char>>, attrs: Seq<Seq<char>>)
    ensures
        verify_outcome(known, attrs) matches Err(a) ==> exists|i: int|
            0 <= i < attrs.len() && attrs[i] == a && !known.dom().contains(a) && forall|j: int|
                0 <= j < i ==> #[trigger] known.dom().contains(attrs[j]),
{
    lemma_first_unknown_is_first(known, attrs, 0);
}

proof fn lemma_first_unknown_is_first(known: Map<Seq<char>, Seq<char>>, attrs: Seq<Seq<char>>, i: int)
    requires
        0 <= i,
    ensures
        first_unknown_from(known, attrs, i) matches Some(a) ==> exists|k: int|
            i <= k < attrs.len() && attrs[k] == a && !known.dom().contains(a) && forall|j: int|
                i <= j < k ==> #[trigger] known.dom().contains(attrs[j]),
    decreases attrs.len() - i,
{
    if i < attrs.len() && known.dom().contains(attrs[i]) {
        lemma_first_unknown_is_first(known, attrs, i + 1);
        match first_unknown_from(known, attrs, i) {
            Some(a) => {
                let k = choose|k: int|
                    i + 1 <= k < attrs.len() && attrs[k] == a && !known.dom().contains(a) && forall|j: int|
                        i + 1 <= j < k ==> #[trigger] known.dom().contains(attrs[j]);
                assert forall|j: int| i <= j < k implies #[trigger] known.dom().contains(attrs[j]) by {
                    if j > i {
                    }
                }
            },
            None => {},
        }
    }
}

} // verus!
