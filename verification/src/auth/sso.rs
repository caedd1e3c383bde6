//! Single-sign-on support: validated token claims, mapping of identity
//! provider groups to roles, and the assembly of a token validator, a claims
//! mapper and an access control into one access-control front end.
//!
//! Exchanging and cryptographically validating tokens against a provider is
//! network work and lives outside this crate's verified core; what stands
//! here is the pure decision logic over already-extracted claims.

use vstd::prelude::*;

use crate::auth::access::AccessControl;
use crate::clock::unix_timestamp_now;
use crate::strings::str_eq;

verus! {

/// Claims extracted from a validated identity token.
pub struct TokenClaims {
    /// Subject identifier.
    pub sub: String,
    /// E-mail address, if the provider supplies one.
    pub email: Option<String>,
    /// Preferred username, if the provider supplies one.
    pub preferred_username: Option<String>,
    /// Groups the subject belongs to.
    pub groups: Vec<String>,
    /// Roles the provider itself asserts.
    pub roles: Vec<String>,
    /// Expiry, in seconds since the Unix epoch.
    pub exp: u64,
}

impl Default for TokenClaims {
    /// Empty claims: no subject, no e-mail, no username, no groups, no
    /// roles, already expired.
    fn default() -> (r: Self)
        ensures
            r.sub@ == Seq::<char>::empty(),
            r.email is None,
            r.preferred_username is None,
            r.groups@ == Seq::<String>::empty(),
            r.roles@ == Seq::<String>::empty(),
            r.exp == 0,
    {
        let r = TokenClaims {
            sub: String::new(),
            email: None,
            preferred_username: None,
            groups: Vec::new(),
            roles: Vec::new(),
            exp: 0,
        };
        proof {
            assert(r.groups@ =~= Seq::<String>::empty());
            assert(r.roles@ =~= Seq::<String>::empty());
        }
        r
    }
}

impl TokenClaims {
    /// The identifier to use for this subject: the e-mail address where the
    /// provider supplies one, the subject identifier otherwise.
    pub fn user_id(&self) -> (r: &str)
        ensures
            match self.email {
                Some(ref email) => r@ == email@,
                None => r@ == self.sub@,
            },
    {
        match &self.email {
            Some(email) => email.as_str(),
            None => self.sub.as_str(),
        }
    }

    /// The provider's groups and asserted roles, together, groups first.
    pub fn all_groups(&self) -> (r: Vec<String>)
        ensures
            r.deep_view() == self.groups.deep_view() + self.roles.deep_view(),
    {
        let mut all: Vec<String> = Vec::new();
        let mut i: usize = 0;
        while i < self.groups.len()
            invariant
                i <= self.groups.len(),
                all@.len() == i,
                forall|j: int| 0 <= j < i ==> all@[j]@ == self.groups@[j]@,
            decreases self.groups.len() - i,
        {
            all.push(self.groups[i].clone());
            i = i + 1;
        }
        let ghost n = self.groups@.len();
        let mut i: usize = 0;
        while i < self.roles.len()
            invariant
                i <= self.roles.len(),
                all@.len() == n + i,
                forall|j: int| 0 <= j < n ==> all@[j]@ == self.groups@[j]@,
                forall|j: int| 0 <= j < i ==> all@[n + j]@ == self.roles@[j]@,
            decreases self.roles.len() - i,
        {
            all.push(self.roles[i].clone());
            i = i + 1;
        }
        proof {
            assert(all.deep_view() =~= self.groups.deep_view() + self.roles.deep_view());
        }
        all
    }

    /// Whether the token is expired at time `now` (seconds since the Unix
    /// epoch): expiry is inclusive, a token expiring now is expired.
    pub fn is_expired_at(&self, now: u64) -> (r: bool)
        ensures
            r == (self.exp <= now),
    {
        self.exp <= now
    }

    /// Whether the token is expired against the system clock.  The clock's
    /// value cannot be promised; a token with expiry zero is always
    /// expired, since clock readings before the epoch count as the epoch.
    pub fn is_expired(&self) -> (r: bool)
        ensures
            self.exp == 0 ==> r,
    {
        let now = unix_timestamp_now();
        let now_secs: u64 = if now < 0 {
            0
        } else {
            now as u64
        };
        self.is_expired_at(now_secs)
    }
}

/// Which claim supplies the user identifier.
#[derive(Debug, Clone, Copy, PartialEq, Eq, Structural)]
pub enum UserIdSource {
    /// The e-mail address, falling back to the subject identifier.
    Email,
    /// The subject identifier.
    Sub,
    /// The preferred username, falling back to the subject identifier.
    PreferredUsername,
}

/// The first role mapped for group `g`, if any mapping names it.
pub open spec fn spec_lookup_role(
    mappings: Seq<(Seq<char>, Seq<char>)>,
    g: Seq<char>,
) -> Option<Seq<char>>
    decreases mappings.len(),
{
    if mappings.len() == 0 {
        None
    } else if mappings[0].0 == g {
        Some(mappings[0].1)
    } else {
        spec_lookup_role(mappings.drop_first(), g)
    }
}

/// The roles collected for the given groups, in group order, first mapping
/// wins, without duplicates.
pub open spec fn spec_collect_roles(
    mappings: Seq<(Seq<char>, Seq<char>)>,
    groups: Seq<Seq<char>>,
) -> Seq<Seq<char>>
    decreases groups.len(),
{
    if groups.len() == 0 {
        Seq::empty()
    } else {
        let rest = spec_collect_roles(mappings, groups.drop_last());
        match spec_lookup_role(mappings, groups.last()) {
            Some(role) => if rest.contains(role) {
                rest
            } else {
                rest.push(role)
            },
            None => rest,
        }
    }
}

/// Maps identity-provider groups to role names.
pub struct ClaimsMapper {
    mappings: Vec<(String, String)>,
    default_role: Option<String>,
    user_id_source: UserIdSource,
}

impl ClaimsMapper {
    /// The group-to-role mappings, in registration order.
    pub closed spec fn spec_mappings(&self) -> Seq<(Seq<char>, Seq<char>)> {
        self.mappings@.map_values(|m: (String, String)| (m.0@, m.1@))
    }

    /// The role used when no mapping applies.
    pub closed spec fn spec_default_role(&self) -> Option<Seq<char>> {
        match self.default_role {
            Some(ref r) => Some(r@),
            None => None,
        }
    }

    /// Which claim supplies the user identifier.
    pub closed spec fn spec_user_id_source(&self) -> UserIdSource {
        self.user_id_source
    }

    /// Start building a claims mapper.
    pub fn builder() -> (r: ClaimsMapperBuilder)
        ensures
            r.spec_mappings() == Seq::<(Seq<char>, Seq<char>)>::empty(),
            r.spec_default_role() is None,
            r.spec_user_id_source() == UserIdSource::Email,
    {
        let b = ClaimsMapperBuilder {
            mapper: ClaimsMapper {
                mappings: Vec::new(),
                default_role: None,
                user_id_source: UserIdSource::Email,
            },
        };
        proof {
            assert(b.mapper.spec_mappings() =~= Seq::<(Seq<char>, Seq<char>)>::empty());
        }
        b
    }

    /// The roles this mapper assigns for the given claims: the roles of the
    /// claims' groups (and provider-asserted roles), in order, first mapping
    /// wins, without duplicates — or the default role alone when no mapping
    /// applied.
    pub fn map_to_roles(&self, claims: &TokenClaims) -> (r: Vec<String>)
        ensures
            r.deep_view() == spec_map_to_roles(
                self.spec_mappings(),
                self.spec_default_role(),
                claims.groups.deep_view() + claims.roles.deep_view(),
            ),
    {
        let groups = claims.all_groups();
        let mut collected: Vec<String> = Vec::new();
        let mut i: usize = 0;
        while i < groups.len()
            invariant
                i <= groups.len(),
                collected.deep_view() == spec_collect_roles(
                    self.spec_mappings(),
                    groups.deep_view().take(i as int),
                ),
            decreases groups.len() - i,
        {
            proof {
                assert(groups.deep_view().take(i + 1).drop_last() =~= groups.deep_view().take(
                    i as int,
                ));
                assert(groups.deep_view().take(i + 1).last() == groups.deep_view()[i as int]);
            }
            match self.lookup_role(&groups[i]) {
                Some(role) => {
                    if !contains_string(&collected, role.as_str()) {
                        collected.push(role);
                        proof {
                            assert(collected.deep_view() =~= spec_collect_roles(
                                self.spec_mappings(),
                                groups.deep_view().take(i + 1),
                            ));
                        }
                    } else {
                        proof {
                            assert(collected.deep_view() =~= spec_collect_roles(
                                self.spec_mappings(),
                                groups.deep_view().take(i + 1),
                            ));
                        }
                    }
                },
                None => {
                    proof {
                        assert(collected.deep_view() =~= spec_collect_roles(
                            self.spec_mappings(),
                            groups.deep_view().take(i + 1),
                        ));
                    }
                },
            }
            i = i + 1;
        }
        proof {
            assert(groups.deep_view().take(groups@.len() as int) =~= groups.deep_view());
        }
        if collected.len() == 0 {
            match &self.default_role {
                Some(default_role) => {
                    let r = vec![default_role.clone()];
                    proof {
                        assert(r.deep_view() =~= seq![self.spec_default_role()->0]);
                    }
                    r
                },
                None => collected,
            }
        } else {
            collected
        }
    }

    /// The first role mapped for `group`, if any.
    fn lookup_role(&self, group: &String) -> (r: Option<String>)
        ensures
            match r {
                Some(role) => Some(role@) == spec_lookup_role(self.spec_mappings(), group@),
                None => spec_lookup_role(self.spec_mappings(), group@) is None,
            },
    {
        let mut i: usize = 0;
        proof {
            assert(self.spec_mappings().skip(0) =~= self.spec_mappings());
        }
        while i < self.mappings.len()
            invariant
                i <= self.mappings.len(),
                spec_lookup_role(self.spec_mappings(), group@) == spec_lookup_role(
                    self.spec_mappings().skip(i as int),
                    group@,
                ),
            decreases self.mappings.len() - i,
        {
            proof {
                let rest = self.spec_mappings().skip(i as int);
                assert(rest[0] == self.spec_mappings()[i as int]);
                assert(rest.drop_first() =~= self.spec_mappings().skip(i + 1));
            }
            if str_eq(self.mappings[i].0.as_str(), group.as_str()) {
                return Some(self.mappings[i].1.clone());
            }
            i = i + 1;
        }
        proof {
            assert(self.spec_mappings().skip(self.mappings@.len() as int)
                =~= Seq::<(Seq<char>, Seq<char>)>::empty());
        }
        None
    }

    /// The user identifier this mapper extracts from the given claims.
    pub fn get_user_id(&self, claims: &TokenClaims) -> (r: String)
        ensures
            r@ == spec_user_id(self.spec_user_id_source(), claims),
    {
        match self.user_id_source {
            UserIdSource::Email => match &claims.email {
                Some(email) => email.clone(),
                None => claims.sub.clone(),
            },
            UserIdSource::Sub => claims.sub.clone(),
            UserIdSource::PreferredUsername => match &claims.preferred_username {
                Some(name) => name.clone(),
                None => claims.sub.clone(),
            },
        }
    }
}

/// The roles assigned for the given groups: the collected mapped roles, or
/// the default role alone when no mapping applied.
pub open spec fn spec_map_to_roles(
    mappings: Seq<(Seq<char>, Seq<char>)>,
    default_role: Option<Seq<char>>,
    groups: Seq<Seq<char>>,
) -> Seq<Seq<char>> {
    let collected = spec_collect_roles(mappings, groups);
    if collected.len() == 0 {
        match default_role {
            Some(role) => seq![role],
            None => Seq::empty(),
        }
    } else {
        collected
    }
}

/// The user identifier a mapper with the given source extracts.
pub open spec fn spec_user_id(source: UserIdSource, claims: &TokenClaims) -> Seq<char> {
    match source {
        UserIdSource::Email => match claims.email {
            Some(ref email) => email@,
            None => claims.sub@,
        },
        UserIdSource::Sub => claims.sub@,
        UserIdSource::PreferredUsername => match claims.preferred_username {
            Some(ref name) => name@,
            None => claims.sub@,
        },
    }
}

/// Whether some string of `items` holds the characters of `s`.
fn contains_string(items: &Vec<String>, s: &str) -> (r: bool)
    ensures
        r == items.deep_view().contains(s@),
{
    let mut i: usize = 0;
    while i < items.len()
        invariant
            i <= items.len(),
            forall|j: int| 0 <= j < i ==> items.deep_view()[j] != s@,
        decreases items.len() - i,
    {
        if str_eq(items[i].as_str(), s) {
            proof {
                assert(items.deep_view()[i as int] == s@);
            }
            return true;
        }
        i = i + 1;
    }
    proof {
        assert forall|j: int| 0 <= j < items.deep_view().len() implies items.deep_view()[j]
            != s@ by {}
    }
    false
}

/// Builder for [`ClaimsMapper`].
pub struct ClaimsMapperBuilder {
    mapper: ClaimsMapper,
}

impl ClaimsMapperBuilder {
    /// The group-to-role mappings registered so far.
    pub closed spec fn spec_mappings(&self) -> Seq<(Seq<char>, Seq<char>)> {
        self.mapper.spec_mappings()
    }

    /// The default role registered so far.
    pub closed spec fn spec_default_role(&self) -> Option<Seq<char>> {
        self.mapper.spec_default_role()
    }

    /// The user-identifier source registered so far.
    pub closed spec fn spec_user_id_source(&self) -> UserIdSource {
        self.mapper.spec_user_id_source()
    }

    /// Map an identity-provider group to a role name; earlier mappings win.
    pub fn map_group(self, group: &str, role: &str) -> (r: Self)
        ensures
            r.spec_mappings() == self.spec_mappings().push((group@, role@)),
            r.spec_default_role() == self.spec_default_role(),
            r.spec_user_id_source() == self.spec_user_id_source(),
    {
        let mut mapper = self.mapper;
        mapper.mappings.push((group.to_owned(), role.to_owned()));
        let r = ClaimsMapperBuilder { mapper };
        proof {
            assert(r.spec_mappings() =~= self.spec_mappings().push((
                group@,
                role@,
            )));
        }
        r
    }

    /// The role assigned when no mapping applies.
    pub fn default_role(self, role: &str) -> (r: Self)
        ensures
            r.spec_mappings() == self.spec_mappings(),
            r.spec_default_role() matches Some(d) && d == role@,
            r.spec_user_id_source() == self.spec_user_id_source(),
    {
        let mut mapper = self.mapper;
        mapper.default_role = Some(role.to_owned());
        ClaimsMapperBuilder { mapper }
    }

    /// Take the user identifier from the e-mail claim.
    pub fn user_id_from_email(self) -> (r: Self)
        ensures
            r.spec_mappings() == self.spec_mappings(),
            r.spec_default_role() == self.spec_default_role(),
            r.spec_user_id_source() == UserIdSource::Email,
    {
        let mut mapper = self.mapper;
        mapper.user_id_source = UserIdSource::Email;
        ClaimsMapperBuilder { mapper }
    }

    /// Take the user identifier from the subject claim.
    pub fn user_id_from_sub(self) -> (r: Self)
        ensures
            r.spec_mappings() == self.spec_mappings(),
            r.spec_default_role() == self.spec_default_role(),
            r.spec_user_id_source() == UserIdSource::Sub,
    {
        let mut mapper = self.mapper;
        mapper.user_id_source = UserIdSource::Sub;
        ClaimsMapperBuilder { mapper }
    }

    /// Take the user identifier from the preferred-username claim.
    pub fn user_id_from_preferred_username(self) -> (r: Self)
        ensures
            r.spec_mappings() == self.spec_mappings(),
            r.spec_default_role() == self.spec_default_role(),
            r.spec_user_id_source() == UserIdSource::PreferredUsername,
    {
        let mut mapper = self.mapper;
        mapper.user_id_source = UserIdSource::PreferredUsername;
        ClaimsMapperBuilder { mapper }
    }

    /// Finish building.
    pub fn build(self) -> (r: ClaimsMapper)
        ensures
            r.spec_mappings() == self.spec_mappings(),
            r.spec_default_role() == self.spec_default_role(),
            r.spec_user_id_source() == self.spec_user_id_source(),
    {
        self.mapper
    }
}

/// A validator of identity tokens against a provider.
///
/// Performing the validation involves network calls to the provider and
/// stands outside this crate; here a validator is configuration that the
/// SSO access control carries.
pub trait TokenValidator: Sized {
    /// This validator as provider configuration.
    fn into_provider(self) -> TokenProvider;
}

/// The provider configuration behind a token validator.
pub enum TokenProvider {
    /// Google's OpenID Connect endpoints.
    Google(GoogleProvider),
    /// A generic OpenID Connect provider.
    Oidc(OidcProvider),
}

/// Token validation against Google's OpenID Connect endpoints.
pub struct GoogleProvider {
    client_id: String,
}

impl GoogleProvider {
    /// A validator for tokens issued to the given client.
    pub fn new(client_id: &str) -> (r: Self)
        ensures
            r.spec_client_id() == client_id@,
    {
        GoogleProvider { client_id: client_id.to_owned() }
    }

    /// The client identifier tokens must be issued to.
    pub closed spec fn spec_client_id(&self) -> Seq<char> {
        self.client_id@
    }

    /// The client identifier tokens must be issued to.
    pub fn client_id(&self) -> (r: &str)
        ensures
            r@ == self.spec_client_id(),
    {
        self.client_id.as_str()
    }
}

impl TokenValidator for GoogleProvider {
    fn into_provider(self) -> TokenProvider {
        TokenProvider::Google(self)
    }
}

/// Token validation against a generic OpenID Connect provider.
pub struct OidcProvider {
    issuer: String,
    client_id: String,
    jwks_uri: String,
}

impl OidcProvider {
    /// A validator for the given issuer, client and key-set endpoint.
    pub fn new(issuer: &str, client_id: &str, jwks_uri: &str) -> (r: Self)
        ensures
            r.spec_issuer() == issuer@,
            r.spec_client_id() == client_id@,
            r.spec_jwks_uri() == jwks_uri@,
    {
        OidcProvider {
            issuer: issuer.to_owned(),
            client_id: client_id.to_owned(),
            jwks_uri: jwks_uri.to_owned(),
        }
    }

    /// The issuer whose tokens are accepted.
    pub closed spec fn spec_issuer(&self) -> Seq<char> {
        self.issuer@
    }

    /// The client identifier tokens must be issued to.
    pub closed spec fn spec_client_id(&self) -> Seq<char> {
        self.client_id@
    }

    /// The JSON-web-key-set endpoint used to verify signatures.
    pub closed spec fn spec_jwks_uri(&self) -> Seq<char> {
        self.jwks_uri@
    }

    /// The issuer whose tokens are accepted.
    pub fn issuer(&self) -> (r: &str)
        ensures
            r@ == self.spec_issuer(),
    {
        self.issuer.as_str()
    }

    /// The client identifier tokens must be issued to.
    pub fn client_id(&self) -> (r: &str)
        ensures
            r@ == self.spec_client_id(),
    {
        self.client_id.as_str()
    }

    /// The JSON-web-key-set endpoint used to verify signatures.
    pub fn jwks_uri(&self) -> (r: &str)
        ensures
            r@ == self.spec_jwks_uri(),
    {
        self.jwks_uri.as_str()
    }
}

impl TokenValidator for OidcProvider {
    fn into_provider(self) -> TokenProvider {
        TokenProvider::Oidc(self)
    }
}

/// An error raised when the SSO access control is built incompletely.
#[derive(Debug, Clone, Copy, PartialEq, Eq, Structural)]
pub enum SsoConfigError {
    /// No token validator was supplied.
    MissingValidator,
    /// No access control was supplied.
    MissingAccessControl,
}

/// Access control driven by single sign-on: a token validator, a claims
/// mapper and a role-based access control, assembled once.
pub struct SsoAccessControl {
    validator: TokenProvider,
    mapper: ClaimsMapper,
    access_control: AccessControl,
}

impl SsoAccessControl {
    /// Start building an SSO access control.
    pub fn builder() -> (r: SsoAccessControlBuilder)
        ensures
            !r.spec_has_validator(),
            !r.spec_has_access_control(),
    {
        SsoAccessControlBuilder { validator: None, mapper: None, access_control: None }
    }

    /// The claims mapper in use.
    pub closed spec fn spec_mapper(&self) -> ClaimsMapper {
        self.mapper
    }

    /// The underlying role-based access control.
    pub closed spec fn spec_access_control(&self) -> AccessControl {
        self.access_control
    }

    /// The claims mapper in use.
    pub fn mapper(&self) -> (r: &ClaimsMapper)
        ensures
            *r == self.spec_mapper(),
    {
        &self.mapper
    }

    /// The underlying role-based access control.
    pub fn access_control(&self) -> (r: &AccessControl)
        ensures
            *r == self.spec_access_control(),
    {
        &self.access_control
    }
}

/// Builder for [`SsoAccessControl`].
pub struct SsoAccessControlBuilder {
    validator: Option<TokenProvider>,
    mapper: Option<ClaimsMapper>,
    access_control: Option<AccessControl>,
}

impl SsoAccessControlBuilder {
    /// Whether a validator was supplied.
    pub closed spec fn spec_has_validator(&self) -> bool {
        self.validator is Some
    }

    /// Whether an access control was supplied.
    pub closed spec fn spec_has_access_control(&self) -> bool {
        self.access_control is Some
    }

    /// Supply the token validator.
    pub fn validator<V: TokenValidator>(self, validator: V) -> (r: Self)
        ensures
            r.spec_has_validator(),
            r.spec_has_access_control() == self.spec_has_access_control(),
    {
        SsoAccessControlBuilder { validator: Some(validator.into_provider()), ..self }
    }

    /// Supply the claims mapper; without one, an empty mapper is used.
    pub fn mapper(self, mapper: ClaimsMapper) -> (r: Self)
        ensures
            r.spec_has_validator() == self.spec_has_validator(),
            r.spec_has_access_control() == self.spec_has_access_control(),
    {
        SsoAccessControlBuilder { mapper: Some(mapper), ..self }
    }

    /// Supply the role-based access control.
    pub fn access_control(self, access_control: AccessControl) -> (r: Self)
        ensures
            r.spec_has_validator() == self.spec_has_validator(),
            r.spec_has_access_control(),
    {
        SsoAccessControlBuilder { access_control: Some(access_control), ..self }
    }

    /// Finish building: fails exactly when the validator or the access
    /// control is missing.
    pub fn build(self) -> (r: Result<SsoAccessControl, SsoConfigError>)
        ensures
            r is Ok <==> self.spec_has_validator() && self.spec_has_access_control(),
            !self.spec_has_validator() ==> r == Err::<SsoAccessControl, SsoConfigError>(
                SsoConfigError::MissingValidator,
            ),
            self.spec_has_validator() && !self.spec_has_access_control() ==> r == Err::<
                SsoAccessControl,
                SsoConfigError,
            >(SsoConfigError::MissingAccessControl),
    {
        let validator = match self.validator {
            Some(v) => v,
            None => {
                return Err(SsoConfigError::MissingValidator);
            },
        };
        let access_control = match self.access_control {
            Some(ac) => ac,
            None => {
                return Err(SsoConfigError::MissingAccessControl);
            },
        };
        let mapper = match self.mapper {
            Some(m) => m,
            None => ClaimsMapper::builder().build(),
        };
        Ok(SsoAccessControl { validator, mapper, access_control })
    }
}

} // verus!
