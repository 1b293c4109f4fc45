//! The stored configuration: companies with their tracker URL and encoded
//! credentials, and where the configuration lives.
use crate::text::string_eq;
use vstd::prelude::*;

verus! {

/// Directory of the application under the home directory.
pub const APP_DIRECTORY: &'static str = ".rusji";

/// Configuration file inside the application directory.
pub const APP_CONFIG: &'static str = "config.json";

/// Padded standard base64 of the UTF-8 bytes of `s`, as the base64 crate writes it.
pub uninterp spec fn base64_of(s: Seq<char>) -> Seq<char>;

/// Relies on base64's `Engine::encode` with the `STANDARD` engine: padded
/// base64 of the UTF-8 bytes of `s`, a function of them alone. It panics
/// only where the output length overflows `usize`, which the bound excludes
/// (at most four bytes per character).
#[verifier::external_body]
fn base64_encode(s: &str) -> (r: String)
    requires
        s@.len() <= usize::MAX / 8,
    ensures
        r@ == base64_of(s@),
{
    base64::Engine::encode(&base64::engine::general_purpose::STANDARD, s)
}

/// Relies on `home::home_dir`, read from the environment; nothing is
/// assumed of what it finds.
#[verifier::external_body]
fn home_directory() -> (r: Option<String>) {
    home::home_dir().map(|p| p.display().to_string())
}

/// Why a configuration lookup failed.
#[derive(Debug, Clone, Copy, PartialEq, Eq, Structural)]
pub enum ConfigError {
    /// No home directory could be determined.
    HomeNotFound,
    /// No company has the name asked for.
    CompanyNotFound,
}

/// The text that Basic authentication encodes: `<username>:<password>`.
pub open spec fn credential_text(username: Seq<char>, password: Seq<char>) -> Seq<char> {
    username + ":"@ + password
}

/// Tracker URL and pre-encoded Basic credentials of one company.
pub struct Jira {
    pub url: String,
    pub encoded_creds: String,
}

impl Jira {
    /// Encodes `username:password` once, for every later request.
    fn new(url: String, username: &str, password: &str) -> (r: Self)
        requires
            username@.len() + password@.len() < usize::MAX / 8,
        ensures
            r.url == url,
            r.encoded_creds@ == base64_of(credential_text(username@, password@)),
    {
        let mut text = username.to_string();
        text.append(":");
        text.append(password);
        proof {
            reveal_strlit(":");
        }
        let encoded_creds = base64_encode(text.as_str());
        Jira { url, encoded_creds }
    }

    pub fn get_url(&self) -> (r: &str)
        ensures
            r@ == self.url@,
    {
        self.url.as_str()
    }

    pub fn get_encoded_creds(&self) -> (r: &str)
        ensures
            r@ == self.encoded_creds@,
    {
        self.encoded_creds.as_str()
    }
}

/// A company and its tracker.
pub struct Company {
    pub company_name: String,
    pub jira: Jira,
}

impl Company {
    pub fn new(company_name: String, jira: Jira) -> (r: Self)
        ensures
            r.company_name == company_name,
            r.jira == jira,
    {
        Company { company_name, jira }
    }
}

/// The configured companies, and the file they are stored in.
pub struct Config {
    pub companies: Vec<Company>,
    pub config_path: String,
}

/// The index of the first company named `name` from position `i` on.
pub open spec fn company_index_from(cs: Seq<Company>, name: Seq<char>, i: int) -> Option<int>
    decreases cs.len() - i,
{
    if i < 0 || i >= cs.len() {
        None
    } else if cs[i].company_name@ == name {
        Some(i)
    } else {
        company_index_from(cs, name, i + 1)
    }
}

/// The index of the last company named `name` before position `i`.
pub open spec fn last_company_index_before(cs: Seq<Company>, name: Seq<char>, i: int) -> Option<
    int,
>
    decreases i,
{
    if i <= 0 || i > cs.len() {
        None
    } else if cs[i - 1].company_name@ == name {
        Some(i - 1)
    } else {
        last_company_index_before(cs, name, i - 1)
    }
}

impl Config {
    /// Names of the companies, in stored order.
    pub fn companies_names(&self) -> (r: Vec<String>)
        ensures
            r@.len() == self.companies@.len(),
            forall|i: int| 0 <= i < r@.len() ==> #[trigger] r@[i]@ == self.companies@[i].company_name@,
    {
        let mut r: Vec<String> = Vec::new();
        let mut i: usize = 0;
        while i < self.companies.len()
            invariant
                i <= self.companies@.len(),
                r@.len() == i,
                forall|j: int| 0 <= j < i ==> #[trigger] r@[j]@ == self.companies@[j].company_name@,
            decreases self.companies@.len() - i,
        {
            r.push(self.companies[i].company_name.clone());
            i = i + 1;
        }
        r
    }

    /// Appends a company whose credentials are `username:password`, encoded.
    pub fn add_new_company(&mut self, url: &str, company_name: &str, username: &str, password: &str)
        requires
            username@.len() + password@.len() < usize::MAX / 8,
        ensures
            final(self).companies@.len() == old(self).companies@.len() + 1,
            forall|i: int| 0 <= i < old(self).companies@.len() ==> #[trigger] final(self).companies@[i]
                == old(self).companies@[i],
            ({
                let c = final(self).companies@.last();
                &&& c.company_name@ == company_name@
                &&& c.jira.url@ == url@
                &&& c.jira.encoded_creds@ == base64_of(credential_text(username@, password@))
            }),
            final(self).config_path == old(self).config_path,
    {
        let jira = Jira::new(url.to_string(), username, password);
        let company = Company::new(company_name.to_string(), jira);
        self.companies.push(company);
    }

    /// Removes the last company named `company_name`; returns whether one was.
    pub fn delete_company(&mut self, company_name: &str) -> (r: bool)
        ensures
            r == last_company_index_before(old(self).companies@, company_name@, old(self).companies@.len() as int) is Some,
            match last_company_index_before(old(self).companies@, company_name@, old(self).companies@.len() as int) {
                Some(i) => final(self).companies@ == old(self).companies@.remove(i),
                None => final(self).companies@ == old(self).companies@,
            },
            final(self).config_path == old(self).config_path,
    {
        let mut i: usize = self.companies.len();
        while i > 0
            invariant
                i <= self.companies@.len(),
                self.companies@ == old(self).companies@,
                self.config_path == old(self).config_path,
                last_company_index_before(self.companies@, company_name@, self.companies@.len() as int)
                    == last_company_index_before(self.companies@, company_name@, i as int),
            decreases i,
        {
            if string_eq(self.companies[i - 1].company_name.as_str(), company_name) {
                self.companies.remove(i - 1);
                return true;
            }
            i = i - 1;
        }
        false
    }

    /// The tracker of the first company named `company_name`.
    pub fn get_jira_by_company(&self, company_name: &str) -> (r: Result<&Jira, ConfigError>)
        ensures
            match company_index_from(self.companies@, company_name@, 0) {
                Some(i) => r matches Ok(j) && *j == self.companies@[i].jira,
                None => r == Err::<&Jira, ConfigError>(ConfigError::CompanyNotFound),
            },
    {
        let mut i: usize = 0;
        while i < self.companies.len()
            invariant
                i <= self.companies@.len(),
                company_index_from(self.companies@, company_name@, 0) == company_index_from(
                    self.companies@,
                    company_name@,
                    i as int,
                ),
            decreases self.companies@.len() - i,
        {
            if string_eq(self.companies[i].company_name.as_str(), company_name) {
                return Ok(&self.companies[i].jira);
            }
            i = i + 1;
        }
        Err(ConfigError::CompanyNotFound)
    }

    /// Where the configuration file is, under the home directory.
    pub fn get_config_path() -> (r: Result<String, ConfigError>)
        ensures
            r matches Ok(p) ==> exists|home: Seq<char>| p@ == config_path_under(home),
            r matches Err(e) ==> e == ConfigError::HomeNotFound,
    {
        build_app_config_path()
    }
}

/// `<home>/<APP_DIRECTORY>`.
pub open spec fn app_path_under(home: Seq<char>) -> Seq<char> {
    home + "/"@ + APP_DIRECTORY@
}

/// `<home>/<APP_DIRECTORY>/<APP_CONFIG>`.
pub open spec fn config_path_under(home: Seq<char>) -> Seq<char> {
    app_path_under(home) + "/"@ + APP_CONFIG@
}

/// The application directory under the home directory `home`.
pub fn app_directory_in(home: &str) -> (r: String)
    ensures
        r@ == app_path_under(home@),
{
    let mut s = home.to_string();
    s.append("/");
    s.append(APP_DIRECTORY);
    s
}

/// The configuration file under the home directory `home`.
pub fn config_file_in(home: &str) -> (r: String)
    ensures
        r@ == config_path_under(home@),
{
    let mut s = app_directory_in(home);
    s.append("/");
    s.append(APP_CONFIG);
    s
}

/// The application directory of the current user.
pub fn build_full_app_path() -> (r: Result<String, ConfigError>)
    ensures
        r matches Ok(p) ==> exists|home: Seq<char>| p@ == app_path_under(home),
        r matches Err(e) ==> e == ConfigError::HomeNotFound,
{
    match home_directory() {
        Some(home) => Ok(app_directory_in(home.as_str())),
        None => Err(ConfigError::HomeNotFound),
    }
}

/// The configuration file of the current user.
pub fn build_app_config_path() -> (r: Result<String, ConfigError>)
    ensures
        r matches Ok(p) ==> exists|home: Seq<char>| p@ == config_path_under(home),
        r matches Err(e) ==> e == ConfigError::HomeNotFound,
{
    match home_directory() {
        Some(home) => Ok(config_file_in(home.as_str())),
        None => Err(ConfigError::HomeNotFound),
    }
}

} // verus!
