use vstd::prelude::*;

verus! {

/// How to run one backend: the command, its arguments in order, and the
/// environment variables set for it.
#[derive(Clone, Debug)]
pub struct ServerConfig {
    pub command: String,
    pub args: Vec<String>,
    pub env: Vec<(String, String)>,
}

/// The whole configuration: the named backends in order, the name of the
/// default one, and where to listen.
#[derive(Clone, Debug)]
pub struct Config {
    pub servers: Vec<(String, ServerConfig)>,
    pub default_server: Option<String>,
    pub host: String,
    pub port: u16,
}

/// What the process environment contributes, each variable as it was found.
#[derive(Clone, Debug)]
pub struct EnvOverrides {
    /// `HOST`
    pub host: Option<String>,
    /// `PORT`
    pub port: Option<String>,
    /// `PROGRAM`
    pub program: Option<String>,
    /// `ARGS`
    pub args: Option<String>,
    /// Every variable of the environment, in order.
    pub vars: Vec<(String, String)>,
}

/// Errors of a configuration that cannot be served.
#[derive(Debug, PartialEq, Eq)]
pub enum ConfigError {
    /// No backend is configured.
    NoServers,
    /// The default names a backend that is not configured.
    UnknownDefault(String),
}

/// A backend as plain values.
pub struct ServerModel {
    pub command: Seq<char>,
    pub args: Seq<Seq<char>>,
    pub env: Seq<(Seq<char>, Seq<char>)>,
}

/// A configuration as plain values.
pub struct ConfigModel {
    pub servers: Seq<(Seq<char>, ServerModel)>,
    pub default_server: Option<Seq<char>>,
    pub host: Seq<char>,
    pub port: u16,
}

/// The environment as plain values.
pub struct EnvModel {
    pub host: Option<Seq<char>>,
    pub port: Option<Seq<char>>,
    pub program: Option<Seq<char>>,
    pub args: Option<Seq<char>>,
    pub vars: Seq<(Seq<char>, Seq<char>)>,
}

pub open spec fn pairs_view(v: Seq<(String, String)>) -> Seq<(Seq<char>, Seq<char>)> {
    v.map_values(|p: (String, String)| (p.0@, p.1@))
}

pub open spec fn strings_view(v: Seq<String>) -> Seq<Seq<char>> {
    v.map_values(|s: String| s@)
}

pub open spec fn opt_view(o: Option<String>) -> Option<Seq<char>> {
    match o {
        Some(s) => Some(s@),
        None => None,
    }
}

impl View for ServerConfig {
    type V = ServerModel;

    open spec fn view(&self) -> ServerModel {
        ServerModel {
            command: self.command@,
            args: strings_view(self.args@),
            env: pairs_view(self.env@),
        }
    }
}

impl View for Config {
    type V = ConfigModel;

    open spec fn view(&self) -> ConfigModel {
        ConfigModel {
            servers: self.servers@.map_values(|e: (String, ServerConfig)| (e.0@, e.1@)),
            default_server: opt_view(self.default_server),
            host: self.host@,
            port: self.port,
        }
    }
}

impl View for EnvOverrides {
    type V = EnvModel;

    open spec fn view(&self) -> EnvModel {
        EnvModel {
            host: opt_view(self.host),
            port: opt_view(self.port),
            program: opt_view(self.program),
            args: opt_view(self.args),
            vars: pairs_view(self.vars@),
        }
    }
}

/// The host listened on when none is configured.
pub fn default_host() -> (r: String)
    ensures
        r@ == "0.0.0.0"@,
{
    String::from_str("0.0.0.0")
}

/// The port listened on when none is configured.
pub fn default_port() -> (r: u16)
    ensures
        r == 8080,
{
    8080
}

impl Default for Config {
    /// No backends, no default, and the default host and port.
    fn default() -> (r: Config)
        ensures
            r@.servers.len() == 0,
            r@.default_server is None,
            r@.host == "0.0.0.0"@,
            r@.port == 8080,
    {
        let r = Config {
            servers: Vec::new(),
            default_server: None,
            host: default_host(),
            port: default_port(),
        };
        assert(r@.servers.len() == 0);
        r
    }
}

/// `i` is the first position of a backend called `name`.
pub open spec fn is_first_named(servers: Seq<(Seq<char>, ServerModel)>, i: int, name: Seq<char>) -> bool {
    &&& 0 <= i < servers.len()
    &&& servers[i].0 == name
    &&& forall|j: int| 0 <= j < i ==> servers[j].0 != name
}

pub open spec fn has_server(servers: Seq<(Seq<char>, ServerModel)>, name: Seq<char>) -> bool {
    exists|i: int| 0 <= i < servers.len() && servers[i].0 == name
}

/// No two backends share a name.
pub open spec fn names_unique(servers: Seq<(Seq<char>, ServerModel)>) -> bool {
    forall|i: int, j: int|
        0 <= i < servers.len() && 0 <= j < servers.len() && i != j ==> servers[i].0 != servers[j].0
}

/// A configuration that can be served: at least one backend, and a default,
/// if one is named, that is among them.
pub open spec fn is_servable(c: ConfigModel) -> bool {
    &&& c.servers.len() > 0
    &&& c.default_server matches Some(d) ==> has_server(c.servers, d)
}

/// Where the backend to run stands: the named default, or the first backend
/// when no default is named.
pub open spec fn default_index(c: ConfigModel) -> Option<int> {
    match c.default_server {
        Some(d) => if has_server(c.servers, d) {
            Some(choose|i: int| is_first_named(c.servers, i, d))
        } else {
            None
        },
        None => if c.servers.len() > 0 {
            Some(0)
        } else {
            None
        },
    }
}

proof fn lemma_first_named(servers: Seq<(Seq<char>, ServerModel)>, name: Seq<char>, i: int)
    requires
        is_first_named(servers, i, name),
    ensures
        has_server(servers, name),
        (choose|k: int| is_first_named(servers, k, name)) == i,
{
    assert(has_server(servers, name));
    let k = choose|k: int| is_first_named(servers, k, name);
    assert(is_first_named(servers, k, name));
    if k < i {
        assert(servers[k].0 != name);
    } else if i < k {
        assert(servers[i].0 != name);
    }
}

impl Config {
    /// The position of the first backend called `name`, if there is one.
    pub fn find_server(&self, name: &String) -> (r: Option<usize>)
        ensures
            match r {
                Some(i) => is_first_named(self@.servers, i as int, name@),
                None => !has_server(self@.servers, name@),
            },
    {
        let mut i: usize = 0;
        while i < self.servers.len()
            invariant
                i <= self.servers@.len(),
                forall|j: int| 0 <= j < i ==> self@.servers[j].0 != name@,
            decreases self.servers@.len() - i,
        {
            if self.servers[i].0.eq(name) {
                assert(self@.servers[i as int].0 == self.servers@[i as int].0@);
                return Some(i);
            }
            assert(self@.servers[i as int].0 == self.servers@[i as int].0@);
            i = i + 1;
        }
        None
    }

    /// The backend to run: the named default, or the first backend when no
    /// default is named.
    pub fn default_server_config(&self) -> (r: Result<&ServerConfig, ConfigError>)
        ensures
            r is Ok <==> default_index(self@) is Some,
            r matches Ok(s) ==> *s == self.servers@[default_index(self@)->0].1,
            r matches Err(ConfigError::NoServers) ==> self@.default_server is None
                && self@.servers.len() == 0,
            r matches Err(ConfigError::UnknownDefault(n)) ==> self@.default_server == Some(n@)
                && !has_server(self@.servers, n@),
    {
        match &self.default_server {
            Some(d) => match self.find_server(d) {
                Some(i) => {
                    proof {
                        lemma_first_named(self@.servers, d@, i as int);
                    }
                    Ok(&self.servers[i].1)
                },
                None => Err(ConfigError::UnknownDefault(d.clone())),
            },
            None => {
                if self.servers.len() > 0 {
                    Ok(&self.servers[0].1)
                } else {
                    Err(ConfigError::NoServers)
                }
            },
        }
    }
}

/// Checks that the configuration can be served: at least one backend, and
/// a default, if one is named, that is among them.
pub fn validate_config(config: &Config) -> (r: Result<(), ConfigError>)
    ensures
        r is Ok <==> is_servable(config@),
        r matches Err(ConfigError::NoServers) <==> config@.servers.len() == 0,
        r matches Err(ConfigError::UnknownDefault(n)) ==> config@.servers.len() > 0
            && config@.default_server == Some(n@) && !has_server(config@.servers, n@),
{
    if config.servers.len() == 0 {
        return Err(ConfigError::NoServers);
    }
    if let Some(d) = &config.default_server {
        if config.find_server(d).is_none() {
            return Err(ConfigError::UnknownDefault(d.clone()));
        }
    }
    Ok(())
}

pub open spec fn is_digit(c: char) -> bool {
    '0' <= c <= '9'
}

/// The number that a string of decimal digits writes.
pub open spec fn digits_value(s: Seq<char>) -> nat
    decreases s.len(),
{
    if s.len() == 0 {
        0
    } else {
        digits_value(s.drop_last()) * 10 + (s.last() as u32 - '0' as u32) as nat
    }
}

/// The digits of an unsigned number: what follows an optional leading `+`.
pub open spec fn unsigned_digits(s: Seq<char>) -> Seq<char> {
    if s.len() > 0 && s[0] == '+' {
        s.drop_first()
    } else {
        s
    }
}

/// The `u16` that `s` writes in decimal, with an optional leading `+`;
/// `None` for anything else or for a value above `u16::MAX`.
pub open spec fn parse_u16_spec(s: Seq<char>) -> Option<u16> {
    let d = unsigned_digits(s);
    if d.len() > 0 && (forall|i: int| 0 <= i < d.len() ==> is_digit(d[i])) && digits_value(d)
        <= 65535 {
        Some(digits_value(d) as u16)
    } else {
        None
    }
}

/// The pieces of `s` between commas, in order, empty pieces included; an
/// empty `s` is one empty piece.
pub open spec fn split_commas(s: Seq<char>) -> Seq<Seq<char>>
    decreases s.len(),
{
    if s.len() == 0 {
        seq![seq![]]
    } else {
        let init = split_commas(s.drop_last());
        if s.last() == ',' {
            init.push(seq![])
        } else {
            init.update(init.len() - 1, init.last().push(s.last()))
        }
    }
}

/// The variables that select and place the backend, which are not handed to it.
pub open spec fn is_reserved(k: Seq<char>) -> bool {
    ||| k == "PROGRAM"@
    ||| k == "ARGS"@
    ||| k == "HOST"@
    ||| k == "PORT"@
    ||| k == "CONFIG_FILE"@
}

/// The variables handed to a backend taken from the environment: all but the
/// reserved ones, in order.
pub open spec fn kept_vars(vars: Seq<(Seq<char>, Seq<char>)>) -> Seq<(Seq<char>, Seq<char>)>
    decreases vars.len(),
{
    if vars.len() == 0 {
        vars
    } else {
        let rest = kept_vars(vars.drop_last());
        if is_reserved(vars.last().0) {
            rest
        } else {
            rest.push(vars.last())
        }
    }
}

/// `servers` with the backend called `name` set to `s`: in place if there is
/// one, else added at the end.
pub open spec fn upsert(servers: Seq<(Seq<char>, ServerModel)>, name: Seq<char>, s: ServerModel) -> Seq<
    (Seq<char>, ServerModel),
> {
    if has_server(servers, name) {
        servers.update(choose|i: int| is_first_named(servers, i, name), (name, s))
    } else {
        servers.push((name, s))
    }
}

/// The backend that the environment describes.
pub open spec fn env_server(program: Seq<char>, e: EnvModel) -> ServerModel {
    ServerModel {
        command: program,
        args: split_commas(
            match e.args {
                Some(a) => a,
                None => seq![],
            },
        ),
        env: kept_vars(e.vars),
    }
}

/// `c` with the environment applied: `HOST` replaces the host, a valid `PORT`
/// the port, and `PROGRAM` sets the backend called `env`, which becomes the
/// default when none is named.
pub open spec fn merged(c: ConfigModel, e: EnvModel) -> ConfigModel {
    let host = match e.host {
        Some(h) => h,
        None => c.host,
    };
    let port = match e.port {
        Some(p) => match parse_u16_spec(p) {
            Some(v) => v,
            None => c.port,
        },
        None => c.port,
    };
    match e.program {
        Some(prog) => ConfigModel {
            servers: upsert(c.servers, "env"@, env_server(prog, e)),
            default_server: match c.default_server {
                Some(d) => Some(d),
                None => Some("env"@),
            },
            host,
            port,
        },
        None => ConfigModel { servers: c.servers, default_server: c.default_server, host, port },
    }
}

/// Relies on `str::parse::<u16>`: decimal digits after an optional `+`, and
/// a value that fits.
#[verifier::external_body]
fn parse_port(s: &str) -> (r: Option<u16>)
    ensures
        r == parse_u16_spec(s@),
{
    s.parse::<u16>().ok()
}

/// Relies on `str::split` with a `char` pattern: the pieces between commas
/// in order, empty ones included.
#[verifier::external_body]
fn split_args(s: &str) -> (r: Vec<String>)
    ensures
        strings_view(r@) == split_commas(s@),
{
    s.split(',').map(String::from).collect()
}

fn is_reserved_key(k: &String) -> (r: bool)
    ensures
        r == is_reserved(k@),
{
    k.eq(&String::from_str("PROGRAM")) || k.eq(&String::from_str("ARGS")) || k.eq(
        &String::from_str("HOST"),
    ) || k.eq(&String::from_str("PORT")) || k.eq(&String::from_str("CONFIG_FILE"))
}

/// The variables of `vars` that a backend taken from the environment gets.
fn backend_vars(vars: &Vec<(String, String)>) -> (r: Vec<(String, String)>)
    ensures
        pairs_view(r@) == kept_vars(pairs_view(vars@)),
{
    let mut r: Vec<(String, String)> = Vec::new();
    let mut i: usize = 0;
    while i < vars.len()
        invariant
            i <= vars@.len(),
            pairs_view(r@) == kept_vars(pairs_view(vars@).take(i as int)),
        decreases vars@.len() - i,
    {
        let ghost all = pairs_view(vars@);
        assert(all.take(i + 1).drop_last() =~= all.take(i as int));
        assert(all.take(i + 1).last() == (vars@[i as int].0@, vars@[i as int].1@));
        if !is_reserved_key(&vars[i].0) {
            let ghost before = r@;
            r.push((vars[i].0.clone(), vars[i].1.clone()));
            assert(pairs_view(r@) =~= pairs_view(before).push(all[i as int]));
        }
        i = i + 1;
    }
    assert(pairs_view(vars@).take(vars@.len() as int) =~= pairs_view(vars@));
    r
}

impl Config {
    /// Sets the backend called `name` to `server`, in place if there is one,
    /// else at the end.
    pub fn upsert_server(&mut self, name: String, server: ServerConfig)
        ensures
            final(self)@.servers == upsert(old(self)@.servers, name@, server@),
            final(self).default_server == old(self).default_server,
            final(self).host == old(self).host,
            final(self).port == old(self).port,
            names_unique(old(self)@.servers) ==> names_unique(final(self)@.servers),
    {
        let ghost old_servers = self@.servers;
        let ghost entry = (name@, server@);
        match self.find_server(&name) {
            Some(i) => {
                proof {
                    lemma_first_named(old_servers, name@, i as int);
                }
                self.servers.set(i, (name, server));
                assert(self@.servers =~= old_servers.update(i as int, entry));
            },
            None => {
                self.servers.push((name, server));
                assert(self@.servers =~= old_servers.push(entry));
            },
        }
    }
}

/// Applies what the environment says to `config`: `HOST`, a valid `PORT`,
/// and a backend called `env` when `PROGRAM` is set.
pub fn merge_env_vars(config: &mut Config, env: &EnvOverrides)
    ensures
        final(config)@ == merged(old(config)@, env@),
        names_unique(old(config)@.servers) ==> names_unique(final(config)@.servers),
{
    if let Some(h) = &env.host {
        config.host = h.clone();
    }
    if let Some(p) = &env.port {
        if let Some(v) = parse_port(p.as_str()) {
            config.port = v;
        }
    }
    if let Some(prog) = &env.program {
        let args = match &env.args {
            Some(a) => split_args(a.as_str()),
            None => {
                proof {
                    reveal_strlit("");
                }
                split_args("")
            },
        };
        let server = ServerConfig { command: prog.clone(), args, env: backend_vars(&env.vars) };
        assert(server@ == env_server(prog@, env@));
        config.upsert_server(String::from_str("env"), server);
        if config.default_server.is_none() {
            config.default_server = Some(String::from_str("env"));
        }
    }
}

/// Applies the environment to a configuration and checks the result.
pub fn prepare_config(config: Config, env: &EnvOverrides) -> (r: Result<Config, ConfigError>)
    ensures
        r is Ok <==> is_servable(merged(config@, env@)),
        r matches Ok(c) ==> c@ == merged(config@, env@),
        r matches Err(ConfigError::NoServers) <==> merged(config@, env@).servers.len() == 0,
        r matches Ok(c) ==> (names_unique(config@.servers) ==> names_unique(c@.servers)),
{
    let mut c = config;
    merge_env_vars(&mut c, env);
    match validate_config(&c) {
        Ok(()) => Ok(c),
        Err(e) => Err(e),
    }
}

/// A sample configuration with two backends run through `npx`: a
/// filesystem server (the default) and a GitHub server with its token.
pub fn example_config() -> (r: Config)
    ensures
        r@.servers.len() == 2,
        r@.servers[0].0 == "filesystem"@,
        r@.servers[0].1.command == "npx"@,
        r@.servers[0].1.args == seq![
            "-y"@,
            "@modelcontextprotocol/server-filesystem"@,
            "/Users/yonaka/workspace"@,
            "/Users/yonaka/mcp-servers"@,
        ],
        r@.servers[0].1.env.len() == 0,
        r@.servers[1].0 == "github"@,
        r@.servers[1].1.command == "npx"@,
        r@.servers[1].1.args == seq!["-y"@, "@modelcontextprotocol/server-github"@],
        r@.servers[1].1.env == seq![("GITHUB_PERSONAL_ACCESS_TOKEN"@, "token_value"@)],
        r@.default_server == Some("filesystem"@),
        r@.host == "0.0.0.0"@,
        r@.port == 8080,
        names_unique(r@.servers),
        is_servable(r@),
{
    let filesystem_args = vec![
        String::from_str("-y"),
        String::from_str("@modelcontextprotocol/server-filesystem"),
        String::from_str("/Users/yonaka/workspace"),
        String::from_str("/Users/yonaka/mcp-servers"),
    ];
    let filesystem_server = ServerConfig {
        command: String::from_str("npx"),
        args: filesystem_args,
        env: Vec::new(),
    };
    let github_args = vec![
        String::from_str("-y"),
        String::from_str("@modelcontextprotocol/server-github"),
    ];
    let mut github_server = ServerConfig {
        command: String::from_str("npx"),
        args: github_args,
        env: Vec::new(),
    };
    github_server.env.push(
        (String::from_str("GITHUB_PERSONAL_ACCESS_TOKEN"), String::from_str("token_value")),
    );
    let mut servers: Vec<(String, ServerConfig)> = Vec::new();
    servers.push((String::from_str("filesystem"), filesystem_server));
    servers.push((String::from_str("github"), github_server));
    let r = Config {
        servers,
        default_server: Some(String::from_str("filesystem")),
        host: String::from_str("0.0.0.0"),
        port: 8080,
    };
    assert(strings_view(r.servers@[0].1.args@) =~= seq![
        "-y"@,
        "@modelcontextprotocol/server-filesystem"@,
        "/Users/yonaka/workspace"@,
        "/Users/yonaka/mcp-servers"@,
    ]);
    assert(strings_view(r.servers@[1].1.args@) =~= seq!["-y"@, "@modelcontextprotocol/server-github"@]);
    assert(pairs_view(r.servers@[1].1.env@) =~= seq![("GITHUB_PERSONAL_ACCESS_TOKEN"@, "token_value"@)]);
    proof {
        reveal_strlit("filesystem");
        reveal_strlit("github");
        assert("filesystem"@[0] != "github"@[0]);
        assert(r@.servers[0].0 == r.servers@[0].0@);
        assert(r@.servers[1].0 == r.servers@[1].0@);
        assert(has_server(r@.servers, "filesystem"@));
    }
    r
}

/// Where the configuration is read from.
#[derive(Debug, PartialEq, Eq)]
pub enum ConfigSource {
    /// A JSON file at this path.
    File(String),
    /// No file: start from `Config::default()`.
    Defaults,
}

/// The path given on the command line wins over `CONFIG_FILE`; with neither,
/// the configuration starts from the defaults.
pub fn config_source(arg_path: Option<String>, env_path: Option<String>) -> (r: ConfigSource)
    ensures
        match (arg_path, env_path) {
            (Some(p), _) => r matches ConfigSource::File(f) && f@ == p@,
            (None, Some(p)) => r matches ConfigSource::File(f) && f@ == p@,
            (None, None) => r is Defaults,
        },
{
    match arg_path {
        Some(p) => ConfigSource::File(p),
        None => match env_path {
            Some(p) => ConfigSource::File(p),
            None => ConfigSource::Defaults,
        },
    }
}

} // verus!
