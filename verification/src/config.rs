//! The configuration of a pipeline: its named components, their wiring, and
//! the settings that apply to the pipeline as a whole.

use vstd::prelude::*;
use vstd::string::*;

verus! {

/// The role a component plays in the pipeline.
#[derive(Clone, Copy, Debug, PartialEq, Eq, Structural)]
pub enum ComponentKind {
    Source,
    Transform,
    Sink,
}

/// One named component as the configuration describes it.
#[derive(Clone, Debug, PartialEq, Eq)]
pub struct ComponentSpec {
    /// The name by which the component is known; unique within a configuration.
    pub key: String,
    pub kind: ComponentKind,
    /// The component's own settings, in serialized form.
    pub options: String,
    /// The keys of the components whose output this one consumes.
    pub inputs: Vec<String>,
    /// The files whose change should restart this component.
    pub files_to_watch: Vec<String>,
}

/// The mathematical value of a [`ComponentSpec`].
pub struct ComponentSpecView {
    pub key: Seq<char>,
    pub kind: ComponentKind,
    pub options: Seq<char>,
    pub inputs: Seq<Seq<char>>,
    pub files_to_watch: Seq<Seq<char>>,
}

impl View for ComponentSpec {
    type V = ComponentSpecView;

    open spec fn view(&self) -> ComponentSpecView {
        ComponentSpecView {
            key: self.key@,
            kind: self.kind,
            options: self.options@,
            inputs: self.inputs.deep_view(),
            files_to_watch: self.files_to_watch.deep_view(),
        }
    }
}

impl DeepView for ComponentSpec {
    type V = ComponentSpecView;

    open spec fn deep_view(&self) -> ComponentSpecView {
        self@
    }
}

/// The keys of `cs`, in order.
pub open spec fn keys_of(cs: Seq<ComponentSpecView>) -> Seq<Seq<char>> {
    cs.map_values(|c: ComponentSpecView| c.key)
}

/// Whether some component of `cs` is named `key`.
pub open spec fn has_key(cs: Seq<ComponentSpecView>, key: Seq<char>) -> bool {
    exists|i: int| 0 <= i < cs.len() && (#[trigger] cs[i]).key == key
}

/// Whether no two components of `cs` share a key.
pub open spec fn distinct_keys(cs: Seq<ComponentSpecView>) -> bool {
    forall|i: int, j: int|
        0 <= i < j < cs.len() ==> (#[trigger] cs[i]).key != (#[trigger] cs[j]).key
}

/// The position in `cs` of the first component named `key`; meaningful only
/// where `has_key(cs, key)`.
pub open spec fn position_of(cs: Seq<ComponentSpecView>, key: Seq<char>) -> int {
    choose|i: int|
        0 <= i < cs.len() && (#[trigger] cs[i]).key == key && forall|j: int|
            0 <= j < i ==> (#[trigger] cs[j]).key != key
}

/// The component of `cs` named `key`, if there is one.
pub open spec fn lookup(cs: Seq<ComponentSpecView>, key: Seq<char>) -> Option<ComponentSpecView> {
    if has_key(cs, key) {
        Some(cs[position_of(cs, key)])
    } else {
        None
    }
}

/// Whether the component at position `i` repeats the key of an earlier one.
pub open spec fn repeats_earlier_key(cs: Seq<ComponentSpecView>, i: int) -> bool {
    exists|j: int| 0 <= j < i && (#[trigger] cs[j]).key == cs[i].key
}

/// Where `has_key(cs, key)`, `position_of` names the first component so named.
pub proof fn lemma_position_of(cs: Seq<ComponentSpecView>, key: Seq<char>)
    requires
        has_key(cs, key),
    ensures
        0 <= position_of(cs, key) < cs.len(),
        cs[position_of(cs, key)].key == key,
        forall|j: int| 0 <= j < position_of(cs, key) ==> (#[trigger] cs[j]).key != key,
{
    let w = choose|i: int| 0 <= i < cs.len() && (#[trigger] cs[i]).key == key;
    lemma_first_position(cs, key, w);
}

proof fn lemma_first_position(cs: Seq<ComponentSpecView>, key: Seq<char>, w: int)
    requires
        0 <= w < cs.len(),
        cs[w].key == key,
    ensures
        exists|i: int|
            0 <= i < cs.len() && (#[trigger] cs[i]).key == key && forall|j: int|
                0 <= j < i ==> (#[trigger] cs[j]).key != key,
    decreases w,
{
    if exists|j: int| 0 <= j < w && (#[trigger] cs[j]).key == key {
        let j = choose|j: int| 0 <= j < w && (#[trigger] cs[j]).key == key;
        lemma_first_position(cs, key, j);
    } else {
        assert(forall|j: int| 0 <= j < w ==> (#[trigger] cs[j]).key != key);
    }
}

/// With distinct keys, the component at position `i` is the one its key looks up.
pub proof fn lemma_lookup_at(cs: Seq<ComponentSpecView>, i: int)
    requires
        distinct_keys(cs),
        0 <= i < cs.len(),
    ensures
        has_key(cs, cs[i].key),
        position_of(cs, cs[i].key) == i,
        lookup(cs, cs[i].key) == Some(cs[i]),
{
    lemma_position_of(cs, cs[i].key);
}

/// Whether two lists of strings hold the same text in the same order.
pub fn same_strings(a: &Vec<String>, b: &Vec<String>) -> (same: bool)
    ensures
        same == (a.deep_view() == b.deep_view()),
{
    if a.len() != b.len() {
        assert(a.deep_view().len() != b.deep_view().len());
        return false;
    }
    let mut i: usize = 0;
    while i < a.len()
        invariant
            i <= a.len(),
            a.len() == b.len(),
            forall|k: int| 0 <= k < i ==> a@[k]@ == b@[k]@,
        decreases a.len() - i,
    {
        if a[i] != b[i] {
            assert(a.deep_view()[i as int] != b.deep_view()[i as int]);
            return false;
        }
        i += 1;
    }
    assert(a.deep_view() =~= b.deep_view());
    true
}

/// A copy of a list of strings.
pub fn copy_strings(a: &Vec<String>) -> (copy: Vec<String>)
    ensures
        copy@ == a@,
{
    let mut out: Vec<String> = Vec::new();
    let mut i: usize = 0;
    while i < a.len()
        invariant
            i <= a.len(),
            out@ == a@.subrange(0, i as int),
        decreases a.len() - i,
    {
        out.push(a[i].clone());
        assert(out@ =~= a@.subrange(0, i + 1));
        i += 1;
    }
    assert(a@.subrange(0, a.len() as int) =~= a@);
    out
}

/// Whether `list` holds `key`.
pub fn contains_string(list: &Vec<String>, key: &String) -> (found: bool)
    ensures
        found == list.deep_view().contains(key@),
{
    let mut i: usize = 0;
    while i < list.len()
        invariant
            i <= list.len(),
            forall|k: int| 0 <= k < i ==> list@[k]@ != key@,
        decreases list.len() - i,
    {
        if list[i] == *key {
            assert(list.deep_view()[i as int] == key@);
            return true;
        }
        i += 1;
    }
    assert(forall|k: int| 0 <= k < list.deep_view().len() ==> list.deep_view()[k] == list@[k]@);
    false
}

impl ComponentSpec {
    /// A component with the given name, role and settings, no inputs and no
    /// watched files.
    pub fn new(key: &str, kind: ComponentKind, options: &str) -> (spec: ComponentSpec)
        ensures
            spec@ == (ComponentSpecView {
                key: key@,
                kind,
                options: options@,
                inputs: Seq::empty(),
                files_to_watch: Seq::empty(),
            }),
    {
        let spec = ComponentSpec {
            key: String::from_str(key),
            kind,
            options: String::from_str(options),
            inputs: Vec::new(),
            files_to_watch: Vec::new(),
        };
        assert(spec@.inputs =~= Seq::empty());
        assert(spec@.files_to_watch =~= Seq::empty());
        spec
    }

    /// The same component, also consuming the output of `input`.
    pub fn with_input(self, input: &str) -> (spec: ComponentSpec)
        ensures
            spec@ == (ComponentSpecView { inputs: self@.inputs.push(input@), ..self@ }),
    {
        let ghost before = self@;
        let mut spec = self;
        spec.inputs.push(String::from_str(input));
        assert(spec@.inputs =~= before.inputs.push(input@));
        spec
    }

    /// The same component, also restarted when `file` changes.
    pub fn with_watched_file(self, file: &str) -> (spec: ComponentSpec)
        ensures
            spec@ == (ComponentSpecView {
                files_to_watch: self@.files_to_watch.push(file@),
                ..self@
            }),
    {
        let ghost before = self@;
        let mut spec = self;
        spec.files_to_watch.push(String::from_str(file));
        assert(spec@.files_to_watch =~= before.files_to_watch.push(file@));
        spec
    }

    /// Whether the two describe the same component in the same way.
    pub fn same_as(&self, other: &ComponentSpec) -> (same: bool)
        ensures
            same == (self@ == other@),
    {
        self.key == other.key && self.kind == other.kind && self.options == other.options
            && same_strings(&self.inputs, &other.inputs) && same_strings(
            &self.files_to_watch,
            &other.files_to_watch,
        )
    }

    /// A copy of the component.
    pub fn duplicate(&self) -> (copy: ComponentSpec)
        ensures
            copy@ == self@,
    {
        ComponentSpec {
            key: self.key.clone(),
            kind: self.kind,
            options: self.options.clone(),
            inputs: copy_strings(&self.inputs),
            files_to_watch: copy_strings(&self.files_to_watch),
        }
    }
}


/// The format in which a configuration file is written.
#[derive(Clone, Copy, Debug, PartialEq, Eq, Structural)]
pub enum Format {
    Toml,
    Json,
    Yaml,
}

/// A place from which configuration is read.
#[derive(Clone, Debug, PartialEq, Eq)]
pub enum ConfigPath {
    /// One file, and its format where that is known.
    File(String, Option<Format>),
    /// A directory of files.
    Dir(String),
}

/// The mathematical value of a [`ConfigPath`].
pub enum ConfigPathView {
    File(Seq<char>, Option<Format>),
    Dir(Seq<char>),
}

impl View for ConfigPath {
    type V = ConfigPathView;

    open spec fn view(&self) -> ConfigPathView {
        match self {
            ConfigPath::File(path, format) => ConfigPathView::File(path@, *format),
            ConfigPath::Dir(path) => ConfigPathView::Dir(path@),
        }
    }
}

impl DeepView for ConfigPath {
    type V = ConfigPathView;

    open spec fn deep_view(&self) -> ConfigPathView {
        self@
    }
}

impl ConfigPath {
    /// A copy of the path.
    pub fn duplicate(&self) -> (copy: ConfigPath)
        ensures
            copy@ == self@,
    {
        match self {
            ConfigPath::File(path, format) => ConfigPath::File(path.clone(), *format),
            ConfigPath::Dir(path) => ConfigPath::Dir(path.clone()),
        }
    }
}

/// A copy of a list of paths.
pub fn copy_paths(paths: &Vec<ConfigPath>) -> (copy: Vec<ConfigPath>)
    ensures
        copy.deep_view() == paths.deep_view(),
{
    let mut out: Vec<ConfigPath> = Vec::new();
    let mut i: usize = 0;
    while i < paths.len()
        invariant
            i <= paths.len(),
            out.len() == i,
            forall|k: int| 0 <= k < i ==> (#[trigger] out@[k])@ == paths@[k]@,
        decreases paths.len() - i,
    {
        out.push(paths[i].duplicate());
        i += 1;
    }
    assert(out.deep_view() =~= paths.deep_view());
    out
}

/// The mathematical value of a [`Config`] or of a [`ConfigBuilder`].
pub struct ConfigView {
    pub components: Seq<ComponentSpecView>,
    pub healthchecks_enabled: bool,
    pub require_healthy: bool,
    pub graceful_shutdown_secs: Option<u64>,
    pub api_enabled: bool,
}

impl ConfigView {
    /// A configuration is well formed when no two of its components share a key.
    pub open spec fn wf(self) -> bool {
        distinct_keys(self.components)
    }

    /// Whether a component named `key` is configured.
    pub open spec fn has(self, key: Seq<char>) -> bool {
        has_key(self.components, key)
    }

    /// Whether at least one source is configured.
    pub open spec fn has_sources(self) -> bool {
        exists|i: int|
            0 <= i < self.components.len() && (#[trigger] self.components[i]).kind
                == ComponentKind::Source
    }

    /// The same configuration under a health policy: `Some(flag)` replaces the
    /// configured flag, `None` keeps it.
    pub open spec fn with_health_policy(self, policy: Option<bool>) -> ConfigView {
        match policy {
            Some(flag) => ConfigView { require_healthy: flag, ..self },
            None => self,
        }
    }
}

/// The text of the error reported for a key that occurs more than once.
pub open spec fn duplicate_key_error(key: Seq<char>) -> Seq<char> {
    "duplicate component key: "@ + key
}

/// The errors that the first `n` components of `cs` give rise to: one for
/// each component that repeats the key of an earlier one, in order.
pub open spec fn duplicate_key_errors(cs: Seq<ComponentSpecView>, n: int) -> Seq<Seq<char>>
    decreases n,
{
    if n <= 0 {
        Seq::empty()
    } else if repeats_earlier_key(cs, n - 1) {
        duplicate_key_errors(cs, n - 1).push(duplicate_key_error(cs[n - 1].key))
    } else {
        duplicate_key_errors(cs, n - 1)
    }
}

/// The first `n` components give rise to no error exactly when none of them
/// repeats an earlier key.
pub proof fn lemma_duplicate_key_errors(cs: Seq<ComponentSpecView>, n: int)
    requires
        0 <= n <= cs.len(),
    ensures
        duplicate_key_errors(cs, n).len() == 0 <==> forall|i: int|
            0 <= i < n ==> !repeats_earlier_key(cs, i),
    decreases n,
{
    if n > 0 {
        lemma_duplicate_key_errors(cs, n - 1);
    }
}

/// A configuration has distinct keys exactly when checking it reports nothing.
pub proof fn lemma_wf_iff_no_errors(cs: Seq<ComponentSpecView>)
    ensures
        distinct_keys(cs) <==> duplicate_key_errors(cs, cs.len() as int).len() == 0,
{
    lemma_duplicate_key_errors(cs, cs.len() as int);
    if distinct_keys(cs) {
        assert forall|i: int| 0 <= i < cs.len() implies !repeats_earlier_key(cs, i) by {
            if repeats_earlier_key(cs, i) {
                let j = choose|j: int| 0 <= j < i && (#[trigger] cs[j]).key == cs[i].key;
                assert(cs[j].key != cs[i].key);
            }
        }
    }
    if forall|i: int| 0 <= i < cs.len() ==> !repeats_earlier_key(cs, i) {
        assert forall|i: int, j: int| 0 <= i < j < cs.len() implies (#[trigger] cs[i]).key != (
        #[trigger] cs[j]).key by {
            assert(!repeats_earlier_key(cs, j));
        }
    }
}

/// A configuration in the making: any components, in any order, not yet
/// checked.
#[derive(Clone, Debug, PartialEq, Eq)]
pub struct ConfigBuilder {
    pub components: Vec<ComponentSpec>,
    pub healthchecks_enabled: bool,
    pub require_healthy: bool,
    pub graceful_shutdown_secs: Option<u64>,
    pub api_enabled: bool,
}

impl View for ConfigBuilder {
    type V = ConfigView;

    open spec fn view(&self) -> ConfigView {
        ConfigView {
            components: self.components.deep_view(),
            healthchecks_enabled: self.healthchecks_enabled,
            require_healthy: self.require_healthy,
            graceful_shutdown_secs: self.graceful_shutdown_secs,
            api_enabled: self.api_enabled,
        }
    }
}

/// A checked configuration: no two of its components share a key.
#[derive(Debug, PartialEq, Eq)]
pub struct Config {
    pub(crate) components: Vec<ComponentSpec>,
    pub(crate) healthchecks_enabled: bool,
    pub(crate) require_healthy: bool,
    pub(crate) graceful_shutdown_secs: Option<u64>,
    pub(crate) api_enabled: bool,
}

impl View for Config {
    type V = ConfigView;

    closed spec fn view(&self) -> ConfigView {
        ConfigView {
            components: self.components.deep_view(),
            healthchecks_enabled: self.healthchecks_enabled,
            require_healthy: self.require_healthy,
            graceful_shutdown_secs: self.graceful_shutdown_secs,
            api_enabled: self.api_enabled,
        }
    }
}

impl DeepView for Config {
    type V = ConfigView;

    open spec fn deep_view(&self) -> ConfigView {
        self@
    }
}

/// The mathematical value of the result of loading or building a
/// configuration.
pub open spec fn config_result_view(result: Result<Config, Vec<String>>) -> Result<
    ConfigView,
    Seq<Seq<char>>,
> {
    match result {
        Ok(config) => Ok(config@),
        Err(errors) => Err(errors.deep_view()),
    }
}

/// What building a configuration from `builder` gives: the configuration
/// itself where its keys are distinct, and else the errors about the keys
/// that repeat.
pub open spec fn build_result(builder: ConfigView) -> Result<ConfigView, Seq<Seq<char>>> {
    if builder.wf() {
        Ok(builder)
    } else {
        Err(duplicate_key_errors(builder.components, builder.components.len() as int))
    }
}

/// The position of the first of `components` named `key`, if any.
pub(crate) fn find_component(components: &Vec<ComponentSpec>, key: &String, end: usize) -> (found:
    Option<usize>)
    requires
        end <= components.len(),
    ensures
        match found {
            Some(i) => i < end && components@[i as int].key@ == key@ && forall|j: int|
                0 <= j < i ==> (#[trigger] components@[j]).key@ != key@,
            None => forall|j: int| 0 <= j < end ==> (#[trigger] components@[j]).key@ != key@,
        },
{
    let mut i: usize = 0;
    while i < end
        invariant
            i <= end <= components.len(),
            forall|j: int| 0 <= j < i ==> (#[trigger] components@[j]).key@ != key@,
        decreases end - i,
    {
        if components[i].key == *key {
            return Some(i);
        }
        i += 1;
    }
    None
}

impl ConfigBuilder {
    /// A builder with no components, health checks enabled but not required,
    /// no limit on graceful shutdown, and no introspection server.
    pub fn new() -> (builder: ConfigBuilder)
        ensures
            builder@ == (ConfigView {
                components: Seq::empty(),
                healthchecks_enabled: true,
                require_healthy: false,
                graceful_shutdown_secs: None,
                api_enabled: false,
            }),
    {
        let builder = ConfigBuilder {
            components: Vec::new(),
            healthchecks_enabled: true,
            require_healthy: false,
            graceful_shutdown_secs: None,
            api_enabled: false,
        };
        assert(builder@.components =~= Seq::empty());
        builder
    }

    /// The same builder with one more component at the end.
    pub fn with_component(self, component: ComponentSpec) -> (builder: ConfigBuilder)
        ensures
            builder@ == (ConfigView { components: self@.components.push(component@), ..self@ }),
    {
        let ghost before = self@;
        let mut builder = self;
        builder.components.push(component);
        assert(builder@.components =~= before.components.push(component@));
        builder
    }

    /// Checks the builder and turns it into a configuration.
    ///
    /// Succeeds exactly when no two components share a key, with the
    /// configuration that the builder describes. Otherwise reports one error
    /// for each component that repeats an earlier key, in order.
    pub fn build(self) -> (built: Result<Config, Vec<String>>)
        ensures
            config_result_view(built) == build_result(self@),
            built is Err ==> built->Err_0.len() > 0,
    {
        let ghost cs = self@.components;
        let mut errors: Vec<String> = Vec::new();
        let mut i: usize = 0;
        while i < self.components.len()
            invariant
                i <= self.components.len(),
                cs == self.components.deep_view(),
                errors.deep_view() == duplicate_key_errors(cs, i as int),
            decreases self.components.len() - i,
        {
            let ghost before = errors.deep_view();
            match find_component(&self.components, &self.components[i].key, i) {
                Some(j) => {
                    let message = String::from_str("duplicate component key: ").concat(
                        self.components[i].key.as_str(),
                    );
                    errors.push(message);
                    assert(cs[j as int].key == cs[i as int].key);
                    assert(repeats_earlier_key(cs, i as int));
                    assert(errors.deep_view() =~= before.push(
                        duplicate_key_error(cs[i as int].key),
                    ));
                },
                None => {
                    assert(forall|j: int| 0 <= j < i ==> (#[trigger] cs[j]).key != cs[i as int].key);
                    assert(!repeats_earlier_key(cs, i as int));
                },
            }
            i += 1;
        }
        proof {
            lemma_wf_iff_no_errors(cs);
        }
        if errors.len() == 0 {
            Ok(
                Config {
                    components: self.components,
                    healthchecks_enabled: self.healthchecks_enabled,
                    require_healthy: self.require_healthy,
                    graceful_shutdown_secs: self.graceful_shutdown_secs,
                    api_enabled: self.api_enabled,
                },
            )
        } else {
            Err(errors)
        }
    }
}

impl Config {
    /// What holds of every configuration: its components have distinct keys.
    #[verifier::type_invariant]
    pub open spec fn well_formed(self) -> bool {
        self@.wf()
    }

    /// The components, in the order in which they were configured.
    pub fn components(&self) -> (components: &Vec<ComponentSpec>)
        ensures
            components.deep_view() == self@.components,
    {
        &self.components
    }

    /// Whether health checks run at all.
    pub fn healthchecks_enabled(&self) -> (enabled: bool)
        ensures
            enabled == self@.healthchecks_enabled,
    {
        self.healthchecks_enabled
    }

    /// Whether a failed health check keeps the pipeline from starting.
    pub fn require_healthy(&self) -> (required: bool)
        ensures
            required == self@.require_healthy,
    {
        self.require_healthy
    }

    /// The limit on a graceful shutdown, in seconds, if there is one.
    pub fn graceful_shutdown_secs(&self) -> (limit: Option<u64>)
        ensures
            limit == self@.graceful_shutdown_secs,
    {
        self.graceful_shutdown_secs
    }

    /// Whether the introspection server is asked for.
    pub fn api_enabled(&self) -> (enabled: bool)
        ensures
            enabled == self@.api_enabled,
    {
        self.api_enabled
    }

    /// Whether at least one source is configured.
    pub fn has_sources(&self) -> (found: bool)
        ensures
            found == self@.has_sources(),
    {
        let mut i: usize = 0;
        while i < self.components.len()
            invariant
                i <= self.components.len(),
                forall|k: int|
                    0 <= k < i ==> (#[trigger] self.components@[k]).kind != ComponentKind::Source,
            decreases self.components.len() - i,
        {
            if self.components[i].kind == ComponentKind::Source {
                assert(self@.components[i as int].kind == ComponentKind::Source);
                return true;
            }
            i += 1;
        }
        assert(forall|k: int|
            0 <= k < self@.components.len() ==> (#[trigger] self@.components[k]).kind
                == self.components@[k].kind);
        false
    }

    /// Whether a component named `key` is configured.
    pub fn contains(&self, key: &String) -> (found: bool)
        ensures
            found == self@.has(key@),
    {
        let at = find_component(&self.components, key, self.components.len());
        proof {
            let cs = self@.components;
            assert(forall|k: int| 0 <= k < cs.len() ==> (#[trigger] cs[k]).key == self.components@[k].key@);
            if let Some(i) = at {
                assert(cs[i as int].key == key@);
            }
        }
        at.is_some()
    }

    /// The keys of the components, in the order in which they were
    /// configured.
    pub fn keys(&self) -> (keys: Vec<String>)
        ensures
            keys.deep_view() == keys_of(self@.components),
    {
        let mut keys: Vec<String> = Vec::new();
        let mut i: usize = 0;
        while i < self.components.len()
            invariant
                i <= self.components.len(),
                keys.len() == i,
                forall|k: int| 0 <= k < i ==> (#[trigger] keys@[k])@ == self.components@[k].key@,
            decreases self.components.len() - i,
        {
            keys.push(self.components[i].key.clone());
            i += 1;
        }
        assert(keys.deep_view() =~= keys_of(self@.components));
        keys
    }

    /// Applies a health policy: `Some(flag)` replaces the configured flag,
    /// `None` keeps it.
    pub fn set_require_healthy(&mut self, policy: Option<bool>)
        ensures
            final(self)@ == old(self)@.with_health_policy(policy),
    {
        proof {
            use_type_invariant(&*self);
        }
        if let Some(flag) = policy {
            self.require_healthy = flag;
        }
    }

    /// Sets the limit on a graceful shutdown, in seconds; `None` lifts it.
    pub fn set_graceful_shutdown_secs(&mut self, limit: Option<u64>)
        ensures
            final(self)@ == (ConfigView { graceful_shutdown_secs: limit, ..old(self)@ }),
    {
        proof {
            use_type_invariant(&*self);
        }
        self.graceful_shutdown_secs = limit;
    }

    /// A copy of the configuration.
    pub fn duplicate(&self) -> (copy: Config)
        ensures
            copy@ == self@,
    {
        proof {
            use_type_invariant(self);
        }
        let mut components: Vec<ComponentSpec> = Vec::new();
        let mut i: usize = 0;
        while i < self.components.len()
            invariant
                i <= self.components.len(),
                components.len() == i,
                forall|k: int| 0 <= k < i ==> (#[trigger] components@[k])@ == self.components@[k]@,
            decreases self.components.len() - i,
        {
            components.push(self.components[i].duplicate());
            i += 1;
        }
        assert(components.deep_view() =~= self.components.deep_view());
        Config {
            components,
            healthchecks_enabled: self.healthchecks_enabled,
            require_healthy: self.require_healthy,
            graceful_shutdown_secs: self.graceful_shutdown_secs,
            api_enabled: self.api_enabled,
        }
    }
}

} // verus!
