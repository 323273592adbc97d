//! The configuration model: named API profiles, migration of older files, and validation.
use crate::text::{
    ascii_lower_seq, is_white_space, trim_end, trim_start,
    char_is_control, chars_of, eq_ignore_ascii_case, is_control, push_str, starts_with, str_eq_ignore_ascii_case,
    str_starts_with, trim, trim_end_char, trim_end_char_str, trim_str, utf8_len_at_most,
};
use vstd::prelude::*;

verus! {

/// At most this many API profiles may be saved.
pub const MAX_API_PROFILES: usize = 20;

/// The name of the profile that a fresh configuration starts with.
pub open spec fn default_profile_name() -> Seq<char> {
    "默认配置"@
}

/// The bit pattern of the `f64` value 0.3, the default sampling temperature.
pub const DEFAULT_TEMPERATURE_BITS: u64 = 0x3FD3_3333_3333_3333;

/// One named set of API settings. The sampling temperature is held as the bit
/// pattern of an IEEE-754 `f64` (`f64::to_bits`), so that it round-trips exactly.
#[derive(Debug, PartialEq)]
pub struct ApiProfile {
    pub name: String,
    pub api_key: String,
    pub base_url: String,
    pub model: String,
    pub temperature_bits: u64,
    pub max_tokens: u32,
}

/// The mathematical model of an [`ApiProfile`].
pub struct ProfileView {
    pub name: Seq<char>,
    pub api_key: Seq<char>,
    pub base_url: Seq<char>,
    pub model: Seq<char>,
    pub temperature_bits: u64,
    pub max_tokens: u32,
}

impl View for ApiProfile {
    type V = ProfileView;

    open spec fn view(&self) -> ProfileView {
        ProfileView {
            name: self.name@,
            api_key: self.api_key@,
            base_url: self.base_url@,
            model: self.model@,
            temperature_bits: self.temperature_bits,
            max_tokens: self.max_tokens,
        }
    }
}

impl Clone for ApiProfile {
    fn clone(&self) -> (res: Self)
        ensures
            res@ == self@,
    {
        ApiProfile {
            name: self.name.clone(),
            api_key: self.api_key.clone(),
            base_url: self.base_url.clone(),
            model: self.model.clone(),
            temperature_bits: self.temperature_bits,
            max_tokens: self.max_tokens,
        }
    }
}

impl Clone for Config {
    fn clone(&self) -> (res: Self)
        ensures
            res@ == self@,
    {
        let profiles = copy_profiles(&self.api_profiles);
        Config {
            active_profile: self.active_profile.clone(),
            api_profiles: profiles,
            hotkey: self.hotkey.clone(),
            system_prompt: self.system_prompt.clone(),
            result_mode: self.result_mode.clone(),
            play_sound: self.play_sound,
            auto_start: self.auto_start,
        }
    }
}

/// A copy of a list of profiles.
pub fn copy_profiles(v: &Vec<ApiProfile>) -> (res: Vec<ApiProfile>)
    ensures
        profiles_view(res@) == profiles_view(v@),
{
    let mut profiles: Vec<ApiProfile> = Vec::new();
    let mut i: usize = 0;
    while i < v.len()
        invariant
            i <= v.len(),
            profiles_view(profiles@) == profiles_view(v@).take(i as int),
        decreases v.len() - i,
    {
        let ghost before = profiles_view(profiles@);
        let copy = v[i].clone();
        profiles.push(copy);
        assert(profiles_view(profiles@) =~= before.push(v@[i as int]@));
        i = i + 1;
        assert(profiles_view(profiles@) =~= profiles_view(v@).take(i as int));
    }
    assert(profiles_view(v@).take(i as int) =~= profiles_view(v@));
    profiles
}

/// The models of a sequence of profiles.
pub open spec fn profiles_view(ps: Seq<ApiProfile>) -> Seq<ProfileView> {
    ps.map_values(|p: ApiProfile| p@)
}

/// The whole application configuration.
#[derive(Debug, PartialEq)]
pub struct Config {
    pub active_profile: String,
    pub api_profiles: Vec<ApiProfile>,
    pub hotkey: String,
    pub system_prompt: String,
    pub result_mode: String,
    pub play_sound: bool,
    pub auto_start: bool,
}

/// The mathematical model of a [`Config`].
pub struct ConfigView {
    pub active_profile: Seq<char>,
    pub api_profiles: Seq<ProfileView>,
    pub hotkey: Seq<char>,
    pub system_prompt: Seq<char>,
    pub result_mode: Seq<char>,
    pub play_sound: bool,
    pub auto_start: bool,
}

impl View for Config {
    type V = ConfigView;

    open spec fn view(&self) -> ConfigView {
        ConfigView {
            active_profile: self.active_profile@,
            api_profiles: profiles_view(self.api_profiles@),
            hotkey: self.hotkey@,
            system_prompt: self.system_prompt@,
            result_mode: self.result_mode@,
            play_sound: self.play_sound,
            auto_start: self.auto_start,
        }
    }
}

/// The fields as they are read from a configuration file; every field may be absent.
/// Files written by version 1.1 and earlier also carry the active profile's API values
/// at the top level (`api_key` .. `max_tokens`).
#[derive(Debug, PartialEq)]
pub struct ConfigFile {
    pub active_profile: Option<String>,
    pub api_profiles: Vec<ApiProfile>,
    pub hotkey: String,
    pub system_prompt: String,
    pub result_mode: String,
    pub play_sound: bool,
    pub auto_start: bool,
    pub api_key: Option<String>,
    pub base_url: Option<String>,
    pub model: Option<String>,
    pub temperature_bits: Option<u64>,
    pub max_tokens: Option<u32>,
}

/// The mathematical model of a [`ConfigFile`].
pub struct ConfigFileView {
    pub active_profile: Option<Seq<char>>,
    pub api_profiles: Seq<ProfileView>,
    pub hotkey: Seq<char>,
    pub system_prompt: Seq<char>,
    pub result_mode: Seq<char>,
    pub play_sound: bool,
    pub auto_start: bool,
    pub api_key: Option<Seq<char>>,
    pub base_url: Option<Seq<char>>,
    pub model: Option<Seq<char>>,
    pub temperature_bits: Option<u64>,
    pub max_tokens: Option<u32>,
}

/// The model of an optional string.
pub open spec fn opt_view(s: Option<String>) -> Option<Seq<char>> {
    match s {
        Some(v) => Some(v@),
        None => None,
    }
}

impl View for ConfigFile {
    type V = ConfigFileView;

    open spec fn view(&self) -> ConfigFileView {
        ConfigFileView {
            active_profile: opt_view(self.active_profile),
            api_profiles: profiles_view(self.api_profiles@),
            hotkey: self.hotkey@,
            system_prompt: self.system_prompt@,
            result_mode: self.result_mode@,
            play_sound: self.play_sound,
            auto_start: self.auto_start,
            api_key: opt_view(self.api_key),
            base_url: opt_view(self.base_url),
            model: opt_view(self.model),
            temperature_bits: self.temperature_bits,
            max_tokens: self.max_tokens,
        }
    }
}

/// The default profile.
pub open spec fn default_profile() -> ProfileView {
    ProfileView {
        name: default_profile_name(),
        api_key: Seq::empty(),
        base_url: "https://api.openai.com/v1"@,
        model: "gpt-4o-mini"@,
        temperature_bits: DEFAULT_TEMPERATURE_BITS,
        max_tokens: 512,
    }
}

/// The default optimisation rules.
pub open spec fn default_system_prompt() -> Seq<char> {
    "你是提示词优化助手。请在不改变原意、不虚构需求的前提下，对用户的原始提示词做轻量优化：表达清楚、结构规范，删除重复、空泛和不必要的内容。使用简洁、规范的 Markdown 格式；只有确有必要时才使用标题或列表。不要扩写成完整方案，不要擅自补充大量背景、角色设定、步骤、示例或验收项。输出长度原则上不超过原文的 1.5 倍；原文较短时最多 200 个汉字。只返回优化后的提示词，不要添加解释、前后缀或 Markdown 代码围栏。"@
}

/// The default configuration.
pub open spec fn default_config() -> ConfigView {
    ConfigView {
        active_profile: default_profile_name(),
        api_profiles: seq![default_profile()],
        hotkey: "Ctrl+TripleA"@,
        system_prompt: default_system_prompt(),
        result_mode: "clipboard"@,
        play_sound: true,
        auto_start: false,
    }
}

impl Default for ApiProfile {
    /// The default profile.
    fn default() -> (res: ApiProfile)
        ensures
            res@ == default_profile(),
    {
        ApiProfile {
            name: "默认配置".to_owned(),
            api_key: String::new(),
            base_url: "https://api.openai.com/v1".to_owned(),
            model: "gpt-4o-mini".to_owned(),
            temperature_bits: DEFAULT_TEMPERATURE_BITS,
            max_tokens: 512,
        }
    }
}

impl Default for Config {
    /// The default configuration.
    fn default() -> (res: Config)
        ensures
            res@ == default_config(),
    {
        let mut profiles: Vec<ApiProfile> = Vec::new();
        profiles.push(ApiProfile::default());
        let res = Config {
            active_profile: "默认配置".to_owned(),
            api_profiles: profiles,
            hotkey: "Ctrl+TripleA".to_owned(),
            system_prompt: "你是提示词优化助手。请在不改变原意、不虚构需求的前提下，对用户的原始提示词做轻量优化：表达清楚、结构规范，删除重复、空泛和不必要的内容。使用简洁、规范的 Markdown 格式；只有确有必要时才使用标题或列表。不要扩写成完整方案，不要擅自补充大量背景、角色设定、步骤、示例或验收项。输出长度原则上不超过原文的 1.5 倍；原文较短时最多 200 个汉字。只返回优化后的提示词，不要添加解释、前后缀或 Markdown 代码围栏。".to_owned(),
            result_mode: "clipboard".to_owned(),
            play_sound: true,
            auto_start: false,
        };
        assert(res@.api_profiles =~= seq![default_profile()]);
        res
    }
}

impl Default for ConfigFile {
    /// The fields assumed for a file that names none of them.
    fn default() -> (res: ConfigFile)
        ensures
            res@.active_profile is None,
            res@.api_profiles.len() == 0,
            res@.hotkey == default_config().hotkey,
            res@.system_prompt == default_config().system_prompt,
            res@.result_mode == default_config().result_mode,
            res@.play_sound == default_config().play_sound,
            res@.auto_start == default_config().auto_start,
            res@.api_key is None,
            res@.base_url is None,
            res@.model is None,
            res@.temperature_bits is None,
            res@.max_tokens is None,
    {
        let config = Config::default();
        let res = ConfigFile {
            active_profile: None,
            api_profiles: Vec::new(),
            hotkey: config.hotkey,
            system_prompt: config.system_prompt,
            result_mode: config.result_mode,
            play_sound: config.play_sound,
            auto_start: config.auto_start,
            api_key: None,
            base_url: None,
            model: None,
            temperature_bits: None,
            max_tokens: None,
        };
        assert(res@.api_profiles =~= Seq::<ProfileView>::empty());
        res
    }
}

/// Whether two profile names denote the same profile: equal up to ASCII case
/// once surrounding white space is removed.
pub open spec fn names_match(a: Seq<char>, b: Seq<char>) -> bool {
    eq_ignore_ascii_case(trim(a), trim(b))
}

/// `i` is the first index of a profile named `name`.
pub open spec fn is_first_match(ps: Seq<ProfileView>, name: Seq<char>, i: int) -> bool {
    &&& 0 <= i < ps.len()
    &&& names_match(ps[i].name, name)
    &&& forall|j: int| 0 <= j < i ==> !names_match(#[trigger] ps[j].name, name)
}

/// The index of the first profile named `name`, if there is one.
pub open spec fn find_profile(ps: Seq<ProfileView>, name: Seq<char>) -> Option<int> {
    if exists|i: int| is_first_match(ps, name, i) {
        Some(choose|i: int| is_first_match(ps, name, i))
    } else {
        None
    }
}

/// The first-match index is unique, so `find_profile` names it.
pub proof fn lemma_first_match_unique(ps: Seq<ProfileView>, name: Seq<char>, i: int)
    requires
        is_first_match(ps, name, i),
    ensures
        find_profile(ps, name) == Some(i),
{
    let k = choose|k: int| is_first_match(ps, name, k);
    if k < i {
        assert(!names_match(ps[k].name, name));
    } else if i < k {
        assert(!names_match(ps[i].name, name));
    }
}

/// What the search finds is the first match.
pub proof fn lemma_find_profile_is_first(ps: Seq<ProfileView>, name: Seq<char>)
    requires
        find_profile(ps, name) is Some,
    ensures
        is_first_match(ps, name, find_profile(ps, name)->0),
{
}

/// When no profile is named `name`, `find_profile` finds none.
pub proof fn lemma_no_match(ps: Seq<ProfileView>, name: Seq<char>)
    requires
        forall|j: int| 0 <= j < ps.len() ==> !names_match(#[trigger] ps[j].name, name),
    ensures
        find_profile(ps, name) is None,
{
}

/// Whether the profile names `a` and `b` denote the same profile.
pub fn profile_names_match(a: &str, b: &str) -> (res: bool)
    ensures
        res == names_match(a@, b@),
{
    let ta = trim_str(a);
    let tb = trim_str(b);
    str_eq_ignore_ascii_case(ta.as_str(), tb.as_str())
}

/// The index of the first profile in `profiles` named `name`.
pub fn find_profile_index(profiles: &Vec<ApiProfile>, name: &str) -> (res: Option<usize>)
    ensures
        match res {
            Some(i) => find_profile(profiles_view(profiles@), name@) == Some(i as int),
            None => find_profile(profiles_view(profiles@), name@) is None,
        },
{
    let ghost ps = profiles_view(profiles@);
    let mut i: usize = 0;
    while i < profiles.len()
        invariant
            i <= profiles.len(),
            ps == profiles_view(profiles@),
            forall|j: int| 0 <= j < i ==> !names_match(#[trigger] ps[j].name, name@),
        decreases profiles.len() - i,
    {
        if profile_names_match(profiles[i].name.as_str(), name) {
            proof {
                assert(is_first_match(ps, name@, i as int));
                lemma_first_match_unique(ps, name@, i as int);
            }
            return Some(i);
        }
        i = i + 1;
    }
    proof {
        lemma_no_match(ps, name@);
    }
    None
}

/// The profiles of a loaded file: those it lists, or the default profile when it lists none.
pub open spec fn loaded_profiles(f: ConfigFileView) -> Seq<ProfileView> {
    if f.api_profiles.len() == 0 {
        seq![default_profile()]
    } else {
        f.api_profiles
    }
}

/// The index of the active profile of a loaded file: the first profile named by
/// `active_profile` when that name is not blank and some profile has it, else 0.
pub open spec fn loaded_active_index(f: ConfigFileView) -> int {
    match f.active_profile {
        Some(n) => if trim(n).len() > 0 {
            match find_profile(loaded_profiles(f), n) {
                Some(i) => i,
                None => 0,
            }
        } else {
            0
        },
        None => 0,
    }
}

/// `p` with the top-level API values of an older file written over it.
pub open spec fn with_legacy_values(p: ProfileView, f: ConfigFileView) -> ProfileView {
    ProfileView {
        name: p.name,
        api_key: match f.api_key {
            Some(v) => v,
            None => p.api_key,
        },
        base_url: match f.base_url {
            Some(v) => v,
            None => p.base_url,
        },
        model: match f.model {
            Some(v) => v,
            None => p.model,
        },
        temperature_bits: match f.temperature_bits {
            Some(v) => v,
            None => p.temperature_bits,
        },
        max_tokens: match f.max_tokens {
            Some(v) => v,
            None => p.max_tokens,
        },
    }
}

/// The configuration that a file's fields describe.
pub open spec fn config_from_file(f: ConfigFileView) -> ConfigView {
    let ps = loaded_profiles(f);
    let k = loaded_active_index(f);
    let migrated = ps.update(k, with_legacy_values(ps[k], f));
    ConfigView {
        active_profile: trim(migrated[k].name),
        api_profiles: migrated,
        hotkey: f.hotkey,
        system_prompt: f.system_prompt,
        result_mode: f.result_mode,
        play_sound: f.play_sound,
        auto_start: f.auto_start,
    }
}

/// The index of the active profile in `c`, if any profile carries its name.
pub open spec fn active_position(c: ConfigView) -> Option<int> {
    find_profile(c.api_profiles, c.active_profile)
}

/// The configuration as a configuration file holds it, with no top-level API values.
pub open spec fn file_of(c: ConfigView) -> ConfigFileView {
    ConfigFileView {
        active_profile: Some(c.active_profile),
        api_profiles: c.api_profiles,
        hotkey: c.hotkey,
        system_prompt: c.system_prompt,
        result_mode: c.result_mode,
        play_sound: c.play_sound,
        auto_start: c.auto_start,
        api_key: None,
        base_url: None,
        model: None,
        temperature_bits: None,
        max_tokens: None,
    }
}

impl Config {
    /// Builds the configuration that a file's fields describe: a file without
    /// profiles gets the default profile, the active profile is the first one named
    /// by `active_profile` (else the first), and the top-level API values of older
    /// files are moved into the active profile only.
    pub fn from_file(file: ConfigFile) -> (res: Config)
        ensures
            res@ == config_from_file(file@),
    {
        let ghost f = file@;
        let ConfigFile {
            active_profile,
            api_profiles,
            hotkey,
            system_prompt,
            result_mode,
            play_sound,
            auto_start,
            api_key,
            base_url,
            model,
            temperature_bits,
            max_tokens,
        } = file;
        let mut profiles = api_profiles;
        if profiles.len() == 0 {
            profiles.push(ApiProfile::default());
        }
        assert(profiles_view(profiles@) =~= loaded_profiles(f));
        let active_index: usize = match &active_profile {
            Some(name) => {
                let requested = trim_str(name.as_str());
                if requested.as_str().is_empty() {
                    0
                } else {
                    match find_profile_index(&profiles, name.as_str()) {
                        Some(i) => i,
                        None => 0,
                    }
                }
            },
            None => 0,
        };
        assert(active_index == loaded_active_index(f));
        let current = &profiles[active_index];
        let updated = ApiProfile {
            name: current.name.clone(),
            api_key: match api_key {
                Some(v) => v,
                None => current.api_key.clone(),
            },
            base_url: match base_url {
                Some(v) => v,
                None => current.base_url.clone(),
            },
            model: match model {
                Some(v) => v,
                None => current.model.clone(),
            },
            temperature_bits: match temperature_bits {
                Some(v) => v,
                None => current.temperature_bits,
            },
            max_tokens: match max_tokens {
                Some(v) => v,
                None => current.max_tokens,
            },
        };
        let ghost before = profiles_view(profiles@);
        profiles.set(active_index, updated);
        assert(profiles_view(profiles@) =~= before.update(
            active_index as int,
            with_legacy_values(before[active_index as int], f),
        ));
        let active_name = trim_str(profiles[active_index].name.as_str());
        Config {
            active_profile: active_name,
            api_profiles: profiles,
            hotkey,
            system_prompt,
            result_mode,
            play_sound,
            auto_start,
        }
    }
}

} // verus!

verus! {

/// `std::io::Error`, carried through unread.
#[verifier::external_type_specification]
#[verifier::external_body]
pub struct ExIoError(std::io::Error);

/// `serde_json::Error`, carried through unread.
#[verifier::external_type_specification]
#[verifier::external_body]
pub struct ExJsonError(serde_json::Error);

/// `std::path::PathBuf`, carried through unread.
#[verifier::external_type_specification]
#[verifier::external_body]
pub struct ExPathBuf(std::path::PathBuf);

/// Why a configuration could not be read, written or accepted.
#[derive(Debug)]
pub enum ConfigError {
    Io(std::io::Error),
    Invalid(String),
    InvalidJson { source: serde_json::Error, backup: std::path::PathBuf },
}

/// The Unicode lower-case mapping of a string, as `str::to_lowercase` computes it.
pub uninterp spec fn unicode_lowercase(s: Seq<char>) -> Seq<char>;

/// Trusted: `str::to_lowercase`. Its result depends on the characters of `s` alone
/// (Rust's mapping is locale-independent); the contract names it and says no more.
#[verifier::external_body]
fn str_to_lowercase(s: &str) -> (res: String)
    ensures
        res@ == unicode_lowercase(s@),
{
    s.to_lowercase()
}

/// Whether a bit pattern is an `f64` that is finite and lies in `0.0..=2.0`.
/// Under IEEE-754, the non-negative values are ordered like their bit patterns,
/// `2.0` is `0x4000_0000_0000_0000`, every NaN and infinity lies above it or has
/// the sign bit set, and the only value with the sign bit in range is `-0.0`.
pub open spec fn temperature_in_range(bits: u64) -> bool {
    bits <= 0x4000_0000_0000_0000 || bits == 0x8000_0000_0000_0000
}

/// The first complaint about a profile's API fields, if any.
pub open spec fn api_fields_error(
    base_url: Seq<char>,
    model: Seq<char>,
    temperature_bits: u64,
    max_tokens: u32,
) -> Option<Seq<char>> {
    if !(starts_with(base_url, "http://"@) || starts_with(base_url, "https://"@)) {
        Some("base_url 必须以 http:// 或 https:// 开头"@)
    } else if vstd::utf8::encode_utf8(trim_end_char(base_url, '/')).len() <= 6 {
        Some("base_url 缺少主机地址"@)
    } else if trim(model).len() == 0 {
        Some("model 不能为空"@)
    } else if !temperature_in_range(temperature_bits) {
        Some("temperature 必须位于 0.0 到 2.0 之间"@)
    } else if max_tokens == 0 {
        Some("max_tokens 必须大于 0"@)
    } else {
        None
    }
}

/// Whether a sequence holds a control character.
pub open spec fn has_control(s: Seq<char>) -> bool {
    exists|i: int| 0 <= i < s.len() && is_control(#[trigger] s[i])
}

/// The first complaint about one profile, if any.
pub open spec fn profile_error(p: ProfileView) -> Option<Seq<char>> {
    let name = trim(p.name);
    if name.len() == 0 {
        Some("API 配置名称不能为空"@)
    } else if name.len() > 40 || has_control(name) {
        Some("API 配置名称不能超过 40 个字符或包含控制字符"@)
    } else {
        api_fields_error(p.base_url, p.model, p.temperature_bits, p.max_tokens)
    }
}

/// The key under which profile names must be unique.
pub open spec fn name_key(name: Seq<char>) -> Seq<char> {
    unicode_lowercase(trim(name))
}

/// The keys of all profiles, in order.
pub open spec fn name_keys(ps: Seq<ProfileView>) -> Seq<Seq<char>> {
    Seq::new(ps.len(), |i: int| name_key(ps[i].name))
}

/// Whether an earlier key equals key `i`.
pub open spec fn duplicate_before(keys: Seq<Seq<char>>, i: int) -> bool {
    exists|j: int| 0 <= j < i && #[trigger] keys[j] == keys[i]
}

/// The complaint about profile `i` when the profiles, whose name keys are `keys`, are
/// checked in order.
pub open spec fn profile_failure(ps: Seq<ProfileView>, keys: Seq<Seq<char>>, i: int) -> Option<Seq<char>> {
    match profile_error(ps[i]) {
        Some(m) => Some(m),
        None => if duplicate_before(keys, i) {
            Some("API 配置名称重复："@ + trim(ps[i].name))
        } else {
            None
        },
    }
}

/// The first complaint about the first `n` profiles.
pub open spec fn first_failure(ps: Seq<ProfileView>, keys: Seq<Seq<char>>, n: nat) -> Option<Seq<char>>
    decreases n,
{
    if n == 0 {
        None
    } else {
        match first_failure(ps, keys, (n - 1) as nat) {
            Some(m) => Some(m),
            None => profile_failure(ps, keys, n - 1),
        }
    }
}

/// The first complaint about a configuration whose profile name keys are `keys`, if
/// any; `None` means it is valid.
pub open spec fn config_error_keyed(c: ConfigView, keys: Seq<Seq<char>>) -> Option<Seq<char>> {
    if c.result_mode != "clipboard"@ {
        Some("result_mode 仅支持 clipboard"@)
    } else if c.api_profiles.len() == 0 {
        Some("至少需要一个 API 配置"@)
    } else if c.api_profiles.len() > 20 {
        Some("API 配置最多保存 20 个"@)
    } else {
        match first_failure(c.api_profiles, keys, c.api_profiles.len()) {
            Some(m) => Some(m),
            None => if active_position(c) is None {
                Some("当前 API 配置不存在："@ + trim(c.active_profile))
            } else {
                None
            },
        }
    }
}

/// The first complaint about a configuration, if any; `None` means it is valid.
pub open spec fn config_error(c: ConfigView) -> Option<Seq<char>> {
    config_error_keyed(c, name_keys(c.api_profiles))
}

/// The outcome that a check with complaint `e` gives.
pub open spec fn outcome_is(res: Result<(), ConfigError>, e: Option<Seq<char>>) -> bool {
    match e {
        Some(m) => res matches Err(ConfigError::Invalid(msg)) && msg@ == m,
        None => res is Ok,
    }
}

/// Once a complaint is found among the first `k` profiles, it stays the first one.
proof fn lemma_first_failure_stays(ps: Seq<ProfileView>, keys: Seq<Seq<char>>, k: nat, n: nat)
    requires
        k <= n,
        first_failure(ps, keys, k) is Some,
    ensures
        first_failure(ps, keys, n) == first_failure(ps, keys, k),
    decreases n - k,
{
    if k < n {
        lemma_first_failure_stays(ps, keys, k, (n - 1) as nat);
    }
}

fn invalid(message: &str) -> (res: Result<(), ConfigError>)
    ensures
        res matches Err(ConfigError::Invalid(m)) && m@ == message@,
{
    Err(ConfigError::Invalid(message.to_owned()))
}

/// Checks the API fields of a profile, in the order: address scheme, host, model,
/// temperature, token limit.
pub fn validate_api_fields(base_url: &str, model: &str, temperature_bits: u64, max_tokens: u32) -> (res:
    Result<(), ConfigError>)
    ensures
        outcome_is(res, api_fields_error(base_url@, model@, temperature_bits, max_tokens)),
{
    if !(str_starts_with(base_url, "http://") || str_starts_with(base_url, "https://")) {
        return invalid("base_url 必须以 http:// 或 https:// 开头");
    }
    let trimmed = trim_end_char_str(base_url, '/');
    if utf8_len_at_most(trimmed.as_str(), 6) {
        return invalid("base_url 缺少主机地址");
    }
    let model_trimmed = trim_str(model);
    if model_trimmed.as_str().is_empty() {
        return invalid("model 不能为空");
    }
    if !(temperature_bits <= 0x4000_0000_0000_0000 || temperature_bits == 0x8000_0000_0000_0000) {
        return invalid("temperature 必须位于 0.0 到 2.0 之间");
    }
    if max_tokens == 0 {
        return invalid("max_tokens 必须大于 0");
    }
    Ok(())
}

/// Whether `v` holds a control character.
fn any_control(v: &Vec<char>) -> (res: bool)
    ensures
        res == has_control(v@),
{
    let mut i: usize = 0;
    while i < v.len()
        invariant
            i <= v.len(),
            forall|k: int| 0 <= k < i ==> !is_control(#[trigger] v@[k]),
        decreases v.len() - i,
    {
        if char_is_control(v[i]) {
            return true;
        }
        i = i + 1;
    }
    false
}

impl ApiProfile {
    /// Checks the profile: a non-blank name of at most 40 characters without control
    /// characters, then its API fields.
    pub fn validate(&self) -> (res: Result<(), ConfigError>)
        ensures
            outcome_is(res, profile_error(self@)),
    {
        let name = trim_str(self.name.as_str());
        let chars = chars_of(name.as_str());
        if chars.len() == 0 {
            return invalid("API 配置名称不能为空");
        }
        if chars.len() > 40 || any_control(&chars) {
            return invalid("API 配置名称不能超过 40 个字符或包含控制字符");
        }
        validate_api_fields(
            self.base_url.as_str(),
            self.model.as_str(),
            self.temperature_bits,
            self.max_tokens,
        )
    }
}

/// The texts of a list of strings.
pub open spec fn strings_view(v: Seq<String>) -> Seq<Seq<char>> {
    v.map_values(|s: String| s@)
}

/// Whether a key before position `i` equals key `i`.
fn earlier_key_equal(keys: &Vec<String>, i: usize) -> (res: bool)
    requires
        i < keys@.len(),
    ensures
        res == exists|j: int| 0 <= j < i && (#[trigger] keys@[j])@ == keys@[i as int]@,
{
    let mut k: usize = 0;
    while k < i
        invariant
            i < keys@.len(),
            k <= i,
            forall|j: int| 0 <= j < k ==> (#[trigger] keys@[j])@ != keys@[i as int]@,
        decreases i - k,
    {
        if keys[k] == keys[i] {
            return true;
        }
        k = k + 1;
    }
    false
}

impl Config {
    /// Checks the configuration, given the name key of each profile: the result mode,
    /// the number of profiles, each profile in order (its own fields, then that no
    /// earlier profile has the same key), and that the active profile exists.
    pub fn validate_keyed(&self, keys: &Vec<String>) -> (res: Result<(), ConfigError>)
        requires
            keys@.len() == self.api_profiles@.len(),
        ensures
            outcome_is(res, config_error_keyed(self@, strings_view(keys@))),
    {
        let ghost c = self@;
        let ghost ps = c.api_profiles;
        let ghost ks = strings_view(keys@);
        let clipboard = "clipboard".to_owned();
        if !(self.result_mode == clipboard) {
            return invalid("result_mode 仅支持 clipboard");
        }
        if self.api_profiles.len() == 0 {
            return invalid("至少需要一个 API 配置");
        }
        if self.api_profiles.len() > MAX_API_PROFILES {
            return invalid("API 配置最多保存 20 个");
        }
        let mut i: usize = 0;
        while i < self.api_profiles.len()
            invariant
                c == self@,
                ps == c.api_profiles,
                ks == strings_view(keys@),
                keys@.len() == ps.len(),
                c.result_mode == "clipboard"@,
                0 < ps.len() <= 20,
                ps.len() == self.api_profiles.len(),
                i <= self.api_profiles.len(),
                first_failure(ps, ks, i as nat) is None,
            decreases self.api_profiles.len() - i,
        {
            let profile = &self.api_profiles[i];
            let checked = profile.validate();
            if checked.is_err() {
                proof {
                    assert(ps[i as int] == profile@);
                    assert(first_failure(ps, ks, (i + 1) as nat) == profile_error(ps[i as int]));
                    lemma_first_failure_stays(ps, ks, (i + 1) as nat, ps.len());
                }
                return checked;
            }
            proof {
                assert(ps[i as int] == profile@);
            }
            if earlier_key_equal(keys, i) {
                let mut message = "API 配置名称重复：".to_owned();
                let trimmed = trim_str(profile.name.as_str());
                push_str(&mut message, trimmed.as_str());
                proof {
                    let j = choose|j: int| 0 <= j < i && (#[trigger] keys@[j])@ == keys@[i as int]@;
                    assert(ks[j] == ks[i as int]);
                    assert(duplicate_before(ks, i as int));
                    assert(first_failure(ps, ks, (i + 1) as nat) == profile_failure(ps, ks, i as int));
                    lemma_first_failure_stays(ps, ks, (i + 1) as nat, ps.len());
                }
                return Err(ConfigError::Invalid(message));
            }
            proof {
                assert(!duplicate_before(ks, i as int)) by {
                    if duplicate_before(ks, i as int) {
                        let j = choose|j: int| 0 <= j < i && #[trigger] ks[j] == ks[i as int];
                        assert(keys@[j]@ == keys@[i as int]@);
                    }
                }
                assert(first_failure(ps, ks, (i + 1) as nat) is None);
            }
            i = i + 1;
        }
        match find_profile_index(&self.api_profiles, self.active_profile.as_str()) {
            Some(_) => Ok(()),
            None => {
                let mut message = "当前 API 配置不存在：".to_owned();
                let trimmed = trim_str(self.active_profile.as_str());
                push_str(&mut message, trimmed.as_str());
                Err(ConfigError::Invalid(message))
            },
        }
    }

    /// The name key of each profile: its trimmed name, lower-cased.
    pub fn name_keys(&self) -> (res: Vec<String>)
        ensures
            res@.len() == self.api_profiles@.len(),
            strings_view(res@) == name_keys(self@.api_profiles),
    {
        let ghost ps = self@.api_profiles;
        let mut keys: Vec<String> = Vec::new();
        let mut i: usize = 0;
        while i < self.api_profiles.len()
            invariant
                ps == self@.api_profiles,
                ps.len() == self.api_profiles.len(),
                i <= self.api_profiles.len(),
                keys@.len() == i,
                forall|j: int| 0 <= j < i ==> (#[trigger] keys@[j])@ == name_key(ps[j].name),
            decreases self.api_profiles.len() - i,
        {
            let trimmed = trim_str(self.api_profiles[i].name.as_str());
            proof {
                assert(ps[i as int] == self.api_profiles@[i as int]@);
            }
            keys.push(str_to_lowercase(trimmed.as_str()));
            i = i + 1;
        }
        assert(strings_view(keys@) =~= name_keys(ps));
        keys
    }

    /// Checks the configuration: the result mode, the number of profiles, each
    /// profile in order (its own fields, then that no earlier profile has the same
    /// lower-cased trimmed name), and that the active profile exists.
    pub fn validate(&self) -> (res: Result<(), ConfigError>)
        ensures
            outcome_is(res, config_error(self@)),
    {
        let keys = self.name_keys();
        self.validate_keyed(&keys)
    }
}

} // verus!

verus! {

/// The address of the chat-completions endpoint under an API base address.
pub open spec fn endpoint_of(base_url: Seq<char>) -> Seq<char> {
    trim_end_char(base_url, '/') + "/chat/completions"@
}

impl ApiProfile {
    /// The chat-completions endpoint: the base address without trailing `/`,
    /// followed by `/chat/completions`.
    pub fn endpoint(&self) -> (res: String)
        ensures
            res@ == endpoint_of(self.base_url@),
    {
        let mut res = trim_end_char_str(self.base_url.as_str(), '/');
        push_str(&mut res, "/chat/completions");
        res
    }
}

impl Config {
    /// The index of the active profile, if a profile carries the active name.
    pub fn active_index(&self) -> (res: Option<usize>)
        ensures
            match res {
                Some(k) => active_position(self@) == Some(k as int),
                None => active_position(self@) is None,
            },
    {
        find_profile_index(&self.api_profiles, self.active_profile.as_str())
    }

    /// The active profile: the first whose name matches `active_profile`.
    pub fn active_api(&self) -> (res: Option<&ApiProfile>)
        ensures
            match active_position(self@) {
                Some(k) => res matches Some(p) && *p == self.api_profiles@[k],
                None => res is None,
            },
    {
        match self.active_index() {
            Some(k) => Some(&self.api_profiles[k]),
            None => None,
        }
    }

    /// The active profile, for changing it in place.
    pub fn active_api_mut(&mut self) -> (res: Option<&mut ApiProfile>)
        ensures
            match active_position(old(self)@) {
                Some(k) => res matches Some(p) && *p == old(self).api_profiles@[k]
                    && final(self).api_profiles@ == old(self).api_profiles@.update(k, *final(p)),
                None => res is None && *final(self) == *old(self),
            },
            final(self).active_profile == old(self).active_profile,
            final(self).hotkey == old(self).hotkey,
            final(self).system_prompt == old(self).system_prompt,
            final(self).result_mode == old(self).result_mode,
            final(self).play_sound == old(self).play_sound,
            final(self).auto_start == old(self).auto_start,
    {
        match self.active_index() {
            Some(k) => Some(&mut self.api_profiles[k]),
            None => None,
        }
    }

    /// The endpoint of the active profile, if there is one.
    pub fn endpoint(&self) -> (res: Option<String>)
        ensures
            match active_position(self@) {
                Some(k) => res matches Some(e) && e@ == endpoint_of(self@.api_profiles[k].base_url),
                None => res is None,
            },
    {
        match self.active_api() {
            Some(p) => Some(p.endpoint()),
            None => None,
        }
    }
}

} // verus!

verus! {

/// Trusted: the `Display` text of a `std::io::Error`; it comes from the operating
/// system, so nothing is promised of it.
#[verifier::external_body]
fn io_error_text(error: &std::io::Error) -> String {
    format!("{error}")
}

/// Trusted: the `Display` text of a `serde_json::Error`; nothing is promised of it.
#[verifier::external_body]
fn json_error_text(error: &serde_json::Error) -> String {
    format!("{error}")
}

/// Trusted: `Path::display` of a path, lossily converted; nothing is promised of it.
#[verifier::external_body]
fn path_text(path: &std::path::PathBuf) -> String {
    format!("{}", path.display())
}

impl ConfigError {
    /// The text shown for this error: an invalid configuration shows
    /// `配置无效：` and the complaint; the other two name the failure first.
    pub fn message(&self) -> (res: String)
        ensures
            match self {
                ConfigError::Invalid(m) => res@ == "配置无效："@ + m@,
                ConfigError::Io(_) => exists|detail: Seq<char>| res@ == "配置文件读写失败："@ + detail,
                ConfigError::InvalidJson { .. } => exists|path: Seq<char>, detail: Seq<char>|
                    res@ == "配置文件格式损坏（已备份到 "@ + path + "）："@ + detail,
            },
    {
        match self {
            ConfigError::Io(error) => {
                let mut res = "配置文件读写失败：".to_owned();
                let detail = io_error_text(error);
                push_str(&mut res, detail.as_str());
                assert(res@ == "配置文件读写失败："@ + detail@);
                res
            },
            ConfigError::Invalid(message) => {
                let mut res = "配置无效：".to_owned();
                push_str(&mut res, message.as_str());
                res
            },
            ConfigError::InvalidJson { source, backup } => {
                let mut res = "配置文件格式损坏（已备份到 ".to_owned();
                let path = path_text(backup);
                push_str(&mut res, path.as_str());
                push_str(&mut res, "）：");
                let detail = json_error_text(source);
                push_str(&mut res, detail.as_str());
                assert(res@ == "配置文件格式损坏（已备份到 "@ + path@ + "）："@ + detail@);
                res
            },
        }
    }
}

} // verus!

verus! {

/// A profile named `name` at `i` means that the search finds one.
pub proof fn lemma_match_is_found(ps: Seq<ProfileView>, name: Seq<char>, i: int)
    requires
        0 <= i < ps.len(),
        names_match(ps[i].name, name),
    ensures
        find_profile(ps, name) is Some,
    decreases i,
{
    if exists|j: int| 0 <= j < i && names_match(#[trigger] ps[j].name, name) {
        let j = choose|j: int| 0 <= j < i && names_match(#[trigger] ps[j].name, name);
        lemma_match_is_found(ps, name, j);
    } else {
        assert(crate::config::is_first_match(ps, name, i));
    }
}

/// Removing surrounding white space twice is the same as once.
pub proof fn lemma_trim_idempotent(s: Seq<char>)
    ensures
        trim(trim(s)) == trim(s),
{
    let t = trim_start(s);
    lemma_trim_start_result(s);
    lemma_trim_end_result(t);
    lemma_trim_end_idempotent(t);
    let u = trim_end(t);
    if u.len() > 0 {
        assert(u[0] == t[0]);
    }
    assert(trim_start(u) == u);
}

proof fn lemma_trim_start_result(s: Seq<char>)
    ensures
        trim_start(s).len() == 0 || !is_white_space(trim_start(s)[0]),
    decreases s.len(),
{
    if s.len() > 0 && is_white_space(s[0]) {
        lemma_trim_start_result(s.drop_first());
    }
}

proof fn lemma_trim_end_result(s: Seq<char>)
    ensures
        trim_end(s).len() <= s.len(),
        trim_end(s) == s.take(trim_end(s).len() as int),
    decreases s.len(),
{
    if s.len() > 0 && is_white_space(s.last()) {
        lemma_trim_end_result(s.drop_last());
        assert(s.drop_last().take(trim_end(s).len() as int) =~= s.take(trim_end(s).len() as int));
    } else {
        assert(s.take(s.len() as int) =~= s);
    }
}

proof fn lemma_trim_end_idempotent(s: Seq<char>)
    ensures
        trim_end(trim_end(s)) == trim_end(s),
    decreases s.len(),
{
    if s.len() > 0 && is_white_space(s.last()) {
        lemma_trim_end_idempotent(s.drop_last());
    }
}

/// A name matches its own trimmed form.
proof fn lemma_name_matches_trimmed(n: Seq<char>)
    ensures
        names_match(n, trim(n)),
{
    lemma_trim_idempotent(n);
}

/// A loaded configuration always has an active profile: the profile that
/// `active_profile` names exists.
pub proof fn lemma_loaded_config_has_active_profile(f: ConfigFileView)
    ensures
        active_position(config_from_file(f)) is Some,
{
    let c = config_from_file(f);
    let k = loaded_active_index(f);
    lemma_loaded_index_in_range(f);
    lemma_name_matches_trimmed(c.api_profiles[k].name);
    assert(names_match(c.api_profiles[k].name, c.active_profile));
    lemma_match_is_found(c.api_profiles, c.active_profile, k);
}

proof fn lemma_loaded_index_in_range(f: ConfigFileView)
    ensures
        0 <= loaded_active_index(f) < loaded_profiles(f).len(),
{
    let ps = loaded_profiles(f);
    if let Some(n) = f.active_profile {
        if trim(n).len() > 0 {
            if let Some(i) = find_profile(ps, n) {
                assert(is_first_match(ps, n, i));
            }
        }
    }
}

/// A valid configuration has an active profile.
pub proof fn lemma_valid_config_has_active_profile(c: ConfigView)
    requires
        config_error(c) is None,
    ensures
        active_position(c) is Some,
        1 <= c.api_profiles.len() <= MAX_API_PROFILES,
        c.result_mode == "clipboard"@,
{
}

/// Profiles whose names match the same name match each other.
proof fn lemma_names_match_transitive(a: Seq<char>, b: Seq<char>, c: Seq<char>)
    requires
        names_match(a, b),
        names_match(b, c),
    ensures
        names_match(a, c),
{
}

/// Saving a configuration (which writes no top-level API values) and loading the
/// file again gives the same configuration back, when the active name is written as
/// the trimmed name of the profile it selects, and is not blank unless that is the first.
pub proof fn lemma_saved_config_loads_back(c: ConfigView, k: int)
    requires
        c.api_profiles.len() > 0,
        active_position(c) == Some(k),
        c.active_profile == trim(c.api_profiles[k].name),
        trim(c.active_profile).len() > 0 || k == 0,
    ensures
        config_from_file(file_of(c)) == c,
{
    let f = file_of(c);
    assert(loaded_profiles(f) == c.api_profiles);
    assert(loaded_active_index(f) == k);
    assert(with_legacy_values(c.api_profiles[k], f) == c.api_profiles[k]);
    assert(c.api_profiles.update(k, c.api_profiles[k]) =~= c.api_profiles);
}

/// The top-level API values of an older file go into the profile that the file's
/// active name selects (the first profile whose trimmed name matches it up to ASCII
/// case), each value only where the file has one; every other profile is loaded as
/// it is, and the selected profile becomes the active one.
pub proof fn lemma_legacy_values_reach_only_the_selected_profile(f: ConfigFileView, n: Seq<char>, k: int)
    requires
        f.api_profiles.len() > 0,
        f.active_profile == Some(n),
        trim(n).len() > 0,
        is_first_match(f.api_profiles, n, k),
    ensures
        ({
            let c = config_from_file(f);
            let p = f.api_profiles[k];
            let q = c.api_profiles[k];
            &&& c.api_profiles.len() == f.api_profiles.len()
            &&& q.name == p.name
            &&& q.api_key == (if let Some(v) = f.api_key { v } else { p.api_key })
            &&& q.base_url == (if let Some(v) = f.base_url { v } else { p.base_url })
            &&& q.model == (if let Some(v) = f.model { v } else { p.model })
            &&& q.temperature_bits == (if let Some(v) = f.temperature_bits { v } else { p.temperature_bits })
            &&& q.max_tokens == (if let Some(v) = f.max_tokens { v } else { p.max_tokens })
            &&& forall|j: int| 0 <= j < f.api_profiles.len() && j != k ==> c.api_profiles[j] == f.api_profiles[j]
            &&& c.active_profile == trim(p.name)
        }),
{
    lemma_first_match_unique(f.api_profiles, n, k);
}

/// A file without an active name, or whose active name no profile carries, gets the
/// top-level API values of an older file in its first profile only.
pub proof fn lemma_legacy_values_default_to_the_first_profile(f: ConfigFileView)
    requires
        f.api_profiles.len() > 0,
        match f.active_profile {
            Some(n) => trim(n).len() == 0 || forall|i: int| !is_first_match(f.api_profiles, n, i),
            None => true,
        },
    ensures
        ({
            let c = config_from_file(f);
            let p = f.api_profiles[0];
            let q = c.api_profiles[0];
            &&& c.api_profiles.len() == f.api_profiles.len()
            &&& q.name == p.name
            &&& q.api_key == (if let Some(v) = f.api_key { v } else { p.api_key })
            &&& q.base_url == (if let Some(v) = f.base_url { v } else { p.base_url })
            &&& q.model == (if let Some(v) = f.model { v } else { p.model })
            &&& q.temperature_bits == (if let Some(v) = f.temperature_bits { v } else { p.temperature_bits })
            &&& q.max_tokens == (if let Some(v) = f.max_tokens { v } else { p.max_tokens })
            &&& forall|j: int| 0 < j < f.api_profiles.len() ==> c.api_profiles[j] == f.api_profiles[j]
            &&& c.active_profile == trim(p.name)
        }),
{
}

proof fn lemma_no_failure_means_each_passes(ps: Seq<ProfileView>, keys: Seq<Seq<char>>, n: nat)
    requires
        n <= ps.len(),
        first_failure(ps, keys, n) is None,
    ensures
        forall|i: int| 0 <= i < n ==> #[trigger] profile_failure(ps, keys, i) is None,
    decreases n,
{
    if n > 0 {
        lemma_no_failure_means_each_passes(ps, keys, (n - 1) as nat);
    }
}

/// A valid configuration writes to the clipboard, has one to twenty profiles, each of
/// them valid (a non-blank name of at most 40 characters, an `http://` or `https://`
/// address, a model, a temperature in range and a positive token limit), no two of
/// them with the same lower-cased trimmed name, and its active profile among them.
pub proof fn lemma_valid_config_is_sound(c: ConfigView)
    requires
        config_error(c) is None,
    ensures
        c.result_mode == "clipboard"@,
        1 <= c.api_profiles.len() <= 20,
        active_position(c) is Some,
        forall|i: int| 0 <= i < c.api_profiles.len() ==> {
            let p = #[trigger] c.api_profiles[i];
            &&& 0 < trim(p.name).len() <= 40
            &&& starts_with(p.base_url, "http://"@) || starts_with(p.base_url, "https://"@)
            &&& trim(p.model).len() > 0
            &&& temperature_in_range(p.temperature_bits)
            &&& p.max_tokens > 0
        },
        forall|i: int, j: int|
            0 <= i < j < c.api_profiles.len() ==> name_key(#[trigger] c.api_profiles[i].name)
                != name_key(#[trigger] c.api_profiles[j].name),
{
    let ps = c.api_profiles;
    let keys = name_keys(ps);
    lemma_no_failure_means_each_passes(ps, keys, ps.len());
    assert forall|i: int| 0 <= i < ps.len() implies profile_error(#[trigger] ps[i]) is None by {
        assert(profile_failure(ps, keys, i) is None);
    }
    assert forall|i: int, j: int| 0 <= i < j < ps.len() implies name_key(#[trigger] ps[i].name)
        != name_key(#[trigger] ps[j].name) by {
        assert(profile_failure(ps, keys, j) is None);
        assert(keys[i] == name_key(ps[i].name));
        assert(keys[j] == name_key(ps[j].name));
        if name_key(ps[i].name) == name_key(ps[j].name) {
            assert(duplicate_before(keys, j));
        }
    }
}

/// Loading, saving and loading again gives what the first load gave: a migrated
/// older file is rewritten without its top-level API values and reads back the same.
pub proof fn lemma_reload_is_stable(f: ConfigFileView)
    ensures
        config_from_file(file_of(config_from_file(f))) == config_from_file(f),
{
    let c = config_from_file(f);
    let ps = loaded_profiles(f);
    let k0 = loaded_active_index(f);
    lemma_loaded_index_in_range(f);
    lemma_loaded_config_has_active_profile(f);
    let m = c.api_profiles;
    assert(m[k0].name == ps[k0].name);
    lemma_name_matches_trimmed(m[k0].name);
    lemma_trim_idempotent(m[k0].name);
    let k1 = active_position(c)->0;
    assert(is_first_match(m, c.active_profile, k1));
    // k1 is k0: the profiles before k0 do not carry the requested name
    if k1 != k0 {
        if k1 < k0 {
            assert(names_match(m[k1].name, m[k0].name));
            assert(m[k1].name == ps[k1].name);
            match f.active_profile {
                Some(n) => {
                    if trim(n).len() > 0 && find_profile(ps, n) is Some {
                        assert(is_first_match(ps, n, k0));
                        assert(names_match(ps[k0].name, n));
                        lemma_names_match_transitive(ps[k1].name, ps[k0].name, n);
                        assert(false);
                    } else {
                        assert(k0 == 0);
                    }
                },
                None => {
                    assert(k0 == 0);
                },
            }
        } else {
            assert(!names_match(m[k0].name, c.active_profile));
        }
    }
    assert(k1 == k0);
    if trim(c.active_profile).len() == 0 && k0 != 0 {
        match f.active_profile {
            Some(n) => {
                if trim(n).len() > 0 && find_profile(ps, n) is Some {
                    assert(is_first_match(ps, n, k0));
                    assert(names_match(ps[k0].name, n));
                    assert(trim(trim(ps[k0].name)) == trim(ps[k0].name));
                    assert(ascii_lower_seq(trim(n)).len() == trim(n).len());
                    assert(false);
                }
            },
            None => {},
        }
    }
    lemma_saved_config_loads_back(c, k0);
}

} // verus!

verus! {

impl Config {
    /// The fields of this configuration as a configuration file stores them: the
    /// active name and the profiles, with no top-level API values.
    pub fn to_file(&self) -> (res: ConfigFile)
        ensures
            res@ == file_of(self@),
    {
        let profiles = copy_profiles(&self.api_profiles);
        ConfigFile {
            active_profile: Some(self.active_profile.clone()),
            api_profiles: profiles,
            hotkey: self.hotkey.clone(),
            system_prompt: self.system_prompt.clone(),
            result_mode: self.result_mode.clone(),
            play_sound: self.play_sound,
            auto_start: self.auto_start,
            api_key: None,
            base_url: None,
            model: None,
            temperature_bits: None,
            max_tokens: None,
        }
    }
}

} // verus!

verus! {

/// The file name under which a damaged configuration is kept, stamped with the
/// Unix time in seconds: `config.invalid-<seconds>.json`.
pub fn invalid_backup_file_name(timestamp: u64) -> (res: String)
    ensures
        res@ == "config.invalid-"@ + crate::text::decimal(timestamp as nat) + ".json"@,
{
    let mut res = "config.invalid-".to_owned();
    let digits = crate::text::decimal_string(timestamp);
    push_str(&mut res, digits.as_str());
    push_str(&mut res, ".json");
    res
}

} // verus!

verus! {

impl From<std::io::Error> for ConfigError {
    fn from(value: std::io::Error) -> (res: Self) {
        ConfigError::Io(value)
    }
}

impl vstd::std_specs::convert::FromSpecImpl<std::io::Error> for ConfigError {
    open spec fn obeys_from_spec() -> bool {
        true
    }

    open spec fn from_spec(v: std::io::Error) -> ConfigError {
        ConfigError::Io(v)
    }
}

} // verus!
