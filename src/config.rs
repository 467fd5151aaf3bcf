use vstd::prelude::*;

verus! {

/// Name of the option that selects the monitored interface.
pub const INTERFACE_OPTION: &'static str = "interface";

/// Interface monitored when the configuration names none.
pub const DEFAULT_INTERFACE: &'static str = "enp1s0";

/// Raw module configuration: option names with their textual values. A later
/// entry for a name overrides an earlier one.
#[derive(Clone, Debug)]
pub struct ModuleConfig {
    entries: Vec<(String, String)>,
}

/// A configuration value that does not parse as its option's type.
#[derive(Clone, Debug)]
pub enum ConfigError {
    InvalidValue { field: String, value: String },
}

/// The value that the last entry named `key` gives, if any.
pub open spec fn lookup(entries: Seq<(String, String)>, key: Seq<char>) -> Option<Seq<char>>
    decreases entries.len(),
{
    if entries.len() == 0 {
        None
    } else if entries.last().0@ == key {
        Some(entries.last().1@)
    } else {
        lookup(entries.drop_last(), key)
    }
}

impl ModuleConfig {
    pub closed spec fn entries(&self) -> Seq<(String, String)> {
        self.entries@
    }

    /// The value configured for option `key`.
    pub open spec fn value_of(&self, key: Seq<char>) -> Option<Seq<char>> {
        lookup(self.entries(), key)
    }

    /// An empty configuration.
    pub fn new() -> (r: ModuleConfig)
        ensures
            forall|k: Seq<char>| r.value_of(k) is None,
    {
        ModuleConfig { entries: Vec::new() }
    }

    /// Sets option `key` to `value`.
    pub fn insert(&mut self, key: String, value: String)
        ensures
            final(self).value_of(key@) == Some(value@),
            forall|k: Seq<char>| k != key@ ==> final(self).value_of(k) == old(self).value_of(k),
    {
        self.entries.push((key, value));
        assert(self.entries@.drop_last() =~= old(self).entries@);
    }

    /// The value configured for option `key`, or `default` where none is.
    pub fn with_default(&self, key: &String, default: String) -> (r: String)
        ensures
            r@ == (match self.value_of(key@) {
                Some(v) => v,
                None => default@,
            }),
    {
        let mut i: usize = self.entries.len();
        assert(self.entries@.subrange(0, i as int) =~= self.entries@);
        while i > 0
            invariant
                i <= self.entries@.len(),
                lookup(self.entries@, key@) == lookup(self.entries@.subrange(0, i as int), key@),
            decreases i,
        {
            let ghost prefix = self.entries@.subrange(0, i as int);
            if self.entries[i - 1].0 == *key {
                return self.entries[i - 1].1.clone();
            }
            assert(prefix.drop_last() =~= self.entries@.subrange(0, i - 1));
            i = i - 1;
        }
        default
    }
}

/// The resolved configuration of the capture module.
#[derive(Clone, Debug)]
pub struct Config {
    interface: String,
}

/// The interface a raw configuration selects: its `interface` option, or
/// the default interface when that option is absent.
pub open spec fn interface_of(raw: ModuleConfig) -> Seq<char> {
    match raw.value_of(INTERFACE_OPTION@) {
        Some(v) => v,
        None => DEFAULT_INTERFACE@,
    }
}

impl Config {
    pub closed spec fn spec_interface(&self) -> Seq<char> {
        self.interface@
    }

    /// A configuration that monitors `interface`.
    pub fn new(interface: String) -> (r: Config)
        ensures
            r.spec_interface() == interface@,
    {
        Config { interface }
    }

    /// The monitored interface's name.
    pub fn interface(&self) -> (r: &String)
        ensures
            r@ == self.spec_interface(),
    {
        &self.interface
    }
}

impl<'a> TryFrom<&'a ModuleConfig> for Config {
    type Error = ConfigError;

    /// Resolves the configuration; this never fails, since the one option
    /// is a plain string.
    fn try_from(raw: &'a ModuleConfig) -> (r: Result<Config, ConfigError>)
        ensures
            r matches Ok(c) && c.spec_interface() == interface_of(*raw),
    {
        let key = String::from_str(INTERFACE_OPTION);
        let interface = raw.with_default(&key, String::from_str(DEFAULT_INTERFACE));
        Ok(Config { interface })
    }
}

/// The resolved configuration is not a spec value (it holds a `String`);
/// what `try_from` returns is stated on the method itself.
impl<'a> vstd::std_specs::convert::TryFromSpecImpl<&'a ModuleConfig> for Config {
    open spec fn obeys_try_from_spec() -> bool {
        false
    }

    open spec fn try_from_spec(raw: &'a ModuleConfig) -> Result<Config, ConfigError> {
        arbitrary()
    }
}

} // verus!
