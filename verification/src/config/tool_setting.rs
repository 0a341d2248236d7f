use vstd::prelude::*;
use crate::error::{ConfigError, ConfigErrorView};
use crate::text_map::{assoc_has, StrMap};

verus! {

/// The JSON text of a tool setting, as a document gives it.
#[derive(Debug, Clone, PartialEq, Eq)]
pub struct Json {
    pub value: String,
}

/// The settings of one tool, given as the text of a JSON object.
#[derive(Debug, Clone, PartialEq, Eq)]
pub struct ToolSetting {
    pub name: String,
    pub json: Json,
}

/// What kind of value a JSON text holds.
#[derive(Debug, Clone, Copy, PartialEq, Eq, Structural)]
pub enum JsonShape {
    Null,
    Bool,
    Number,
    String,
    Array,
    Object,
}

/// What `serde_json::from_str` makes of a text when it reads it as a
/// `serde_json::Value`: the kind of the value, or `None` where it reports an error.
pub uninterp spec fn json_shape(text: Seq<char>) -> Option<JsonShape>;

/// Calls `serde_json::from_str` to read `text` as a `serde_json::Value` and says
/// which of the six variants came back, or `None` for an error. Nothing is claimed
/// of which texts are JSON: the result is only given its name.
#[verifier::external_body]
fn parse_shape(text: &str) -> (shape: Option<JsonShape>)
    ensures
        shape == json_shape(text@),
{
    match serde_json::from_str::<serde_json::Value>(text) {
        Ok(serde_json::Value::Null) => Some(JsonShape::Null),
        Ok(serde_json::Value::Bool(_)) => Some(JsonShape::Bool),
        Ok(serde_json::Value::Number(_)) => Some(JsonShape::Number),
        Ok(serde_json::Value::String(_)) => Some(JsonShape::String),
        Ok(serde_json::Value::Array(_)) => Some(JsonShape::Array),
        Ok(serde_json::Value::Object(_)) => Some(JsonShape::Object),
        Err(_) => None,
    }
}

/// The name and the JSON text of every setting, in order.
pub open spec fn setting_views(settings: Seq<ToolSetting>) -> Seq<(Seq<char>, Seq<char>)> {
    settings.map_values(|s: ToolSetting| (s.name@, s.json.value@))
}

/// What a setting is worth once the kind of its JSON text is known: the setting
/// itself for an object, an error for anything else.
pub open spec fn checked_setting(
    setting: (Seq<char>, Seq<char>),
    shape: Option<JsonShape>,
) -> Result<(Seq<char>, Seq<char>), ConfigErrorView> {
    match shape {
        None => Err(ConfigErrorView::InvalidToolSetting { name: setting.0 }),
        Some(JsonShape::Object) => Ok(setting),
        Some(_) => Err(ConfigErrorView::ToolSettingNotObject { name: setting.0 }),
    }
}

/// The settings by name with `setting` added, or an error where the name is taken.
pub open spec fn added_setting(
    agent: Seq<char>,
    settings: Seq<(Seq<char>, Seq<char>)>,
    setting: (Seq<char>, Seq<char>),
) -> Result<Seq<(Seq<char>, Seq<char>)>, ConfigErrorView> {
    if assoc_has(settings, setting.0) {
        Err(ConfigErrorView::DuplicateToolSetting { agent, name: setting.0 })
    } else {
        Ok(settings.push(setting))
    }
}

/// The settings of an agent by name, read in order: the first setting whose text is
/// not a JSON object, or whose name an earlier setting has, gives the error.
pub open spec fn collected_settings(
    agent: Seq<char>,
    settings: Seq<(Seq<char>, Seq<char>)>,
) -> Result<Seq<(Seq<char>, Seq<char>)>, ConfigErrorView>
    decreases settings.len(),
{
    if settings.len() == 0 {
        Ok(Seq::empty())
    } else {
        match collected_settings(agent, settings.drop_last()) {
            Err(e) => Err(e),
            Ok(earlier) => match checked_setting(settings.last(), json_shape(settings.last().1)) {
                Err(e) => Err(e),
                Ok(setting) => added_setting(agent, earlier, setting),
            },
        }
    }
}

/// Whether every setting is the text of a JSON object and no two settings have one
/// name.
pub open spec fn settings_valid(settings: Seq<(Seq<char>, Seq<char>)>) -> bool {
    &&& forall|i: int|
        0 <= i < settings.len() ==> json_shape((#[trigger] settings[i]).1) == Some(
            JsonShape::Object,
        )
    &&& forall|i: int, j: int|
        0 <= i < j < settings.len() ==> (#[trigger] settings[i]).0 != (#[trigger] settings[j]).0
}

/// The settings are collected exactly when they are valid, and then they are
/// collected as they stand.
pub proof fn lemma_collected_iff_valid(agent: Seq<char>, settings: Seq<(Seq<char>, Seq<char>)>)
    ensures
        collected_settings(agent, settings) is Ok <==> settings_valid(settings),
        settings_valid(settings) ==> collected_settings(agent, settings) == Ok::<
            Seq<(Seq<char>, Seq<char>)>,
            ConfigErrorView,
        >(settings),
    decreases settings.len(),
{
    if settings.len() > 0 {
        let front = settings.drop_last();
        let last = settings.last();
        lemma_collected_iff_valid(agent, front);
        if settings_valid(settings) {
            assert(settings_valid(front)) by {
                assert forall|i: int| 0 <= i < front.len() implies json_shape(
                    (#[trigger] front[i]).1,
                ) == Some(JsonShape::Object) by {
                    assert(front[i] == settings[i]);
                }
                assert forall|i: int, j: int| 0 <= i < j < front.len() implies (
                #[trigger] front[i]).0 != (#[trigger] front[j]).0 by {
                    assert(settings[i].0 != settings[j].0);
                }
            }
            assert(settings[settings.len() - 1] == last);
            assert(!assoc_has(front, last.0)) by {
                if assoc_has(front, last.0) {
                    let i = choose|i: int| 0 <= i < front.len() && (#[trigger] front[i]).0 == last.0;
                    assert(settings[i].0 != settings[settings.len() - 1].0);
                }
            }
            assert(front.push(last) =~= settings);
        }
        if collected_settings(agent, settings) is Ok {
            assert(settings_valid(front));
            assert(json_shape(last.1) == Some(JsonShape::Object));
            assert(!assoc_has(front, last.0));
            assert forall|i: int| 0 <= i < settings.len() implies json_shape(
                (#[trigger] settings[i]).1,
            ) == Some(JsonShape::Object) by {
                if i < front.len() {
                    assert(front[i] == settings[i]);
                }
            }
            assert forall|i: int, j: int| 0 <= i < j < settings.len() implies (
            #[trigger] settings[i]).0 != (#[trigger] settings[j]).0 by {
                if j < front.len() {
                    assert(front[i].0 != front[j].0);
                } else {
                    assert(front[i].0 == settings[i].0);
                }
            }
        }
    } else {
        assert(settings =~= Seq::empty());
    }
}

/// The view of a checked setting or of an error.
pub open spec fn checked_view(r: Result<(String, String), ConfigError>) -> Result<
    (Seq<char>, Seq<char>),
    ConfigErrorView,
> {
    match r {
        Ok(pair) => Ok((pair.0@, pair.1@)),
        Err(e) => Err(e@),
    }
}

/// The view of collected settings or of an error.
pub open spec fn collected_view(r: Result<StrMap<String>, ConfigError>) -> Result<
    Seq<(Seq<char>, Seq<char>)>,
    ConfigErrorView,
> {
    match r {
        Ok(map) => Ok(map@),
        Err(e) => Err(e@),
    }
}

impl ToolSetting {
    /// The setting with its name and text, where `shape` says that the text is a
    /// JSON object; else the error that tells what is wrong with it.
    pub fn check_shape(&self, shape: Option<JsonShape>) -> (r: Result<(String, String), ConfigError>)
        ensures
            checked_view(r) == checked_setting((self.name@, self.json.value@), shape),
    {
        match shape {
            None => Err(ConfigError::InvalidToolSetting { name: self.name.clone() }),
            Some(JsonShape::Object) => Ok((self.name.clone(), self.json.value.clone())),
            Some(_) => Err(ConfigError::ToolSettingNotObject { name: self.name.clone() }),
        }
    }

    /// The setting with its name and text, where the text is a JSON object.
    pub fn to_value(&self) -> (r: Result<(String, String), ConfigError>)
        ensures
            checked_view(r) == checked_setting(
                (self.name@, self.json.value@),
                json_shape(self.json.value@),
            ),
    {
        let shape = parse_shape(self.json.value.as_str());
        self.check_shape(shape)
    }
}

/// Adds a checked setting to the settings of the agent `agent`, or says that its
/// name is taken and leaves the settings as they are.
pub fn add_setting(agent: &str, settings: &mut StrMap<String>, setting: (String, String)) -> (r:
    Result<(), ConfigError>)
    ensures
        match added_setting(agent@, old(settings)@, (setting.0@, setting.1@)) {
            Ok(after) => r is Ok && final(settings)@ == after,
            Err(e) => r is Err && r->Err_0@ == e && final(settings)@ == old(settings)@,
        },
{
    if settings.contains_key(setting.0.as_str()) {
        Err(ConfigError::DuplicateToolSetting { agent: agent.to_owned(), name: setting.0 })
    } else {
        settings.insert(setting.0, setting.1);
        Ok(())
    }
}

/// The settings of the agent `agent`, by name.
pub fn collect_tool_settings(agent: &str, settings: &Vec<ToolSetting>) -> (r: Result<
    StrMap<String>,
    ConfigError,
>)
    ensures
        collected_view(r) == collected_settings(agent@, setting_views(settings@)),
        r is Ok <==> settings_valid(setting_views(settings@)),
        r is Ok ==> r->Ok_0@ == setting_views(settings@),
{
    let ghost views = setting_views(settings@);
    let mut map: StrMap<String> = StrMap::new();
    let mut i: usize = 0;
    while i < settings.len()
        invariant
            i <= settings.len(),
            views == setting_views(settings@),
            collected_settings(agent@, views.take(i as int)) == Ok::<
                Seq<(Seq<char>, Seq<char>)>,
                ConfigErrorView,
            >(map@),
        decreases settings.len() - i,
    {
        proof {
            let step = views.take(i as int + 1);
            assert(step.drop_last() =~= views.take(i as int));
            assert(step.last() == views[i as int]);
        }
        match settings[i].to_value() {
            Err(e) => {
                proof {
                    lemma_error_stays(agent@, views, i as int + 1);
                    lemma_collected_iff_valid(agent@, views);
                }
                return Err(e);
            },
            Ok(setting) => {
                match add_setting(agent, &mut map, setting) {
                    Err(e) => {
                        proof {
                            lemma_error_stays(agent@, views, i as int + 1);
                            lemma_collected_iff_valid(agent@, views);
                        }
                        return Err(e);
                    },
                    Ok(()) => {},
                }
            },
        }
        i += 1;
    }
    proof {
        assert(views.take(settings.len() as int) =~= views);
        lemma_collected_iff_valid(agent@, views);
    }
    Ok(map)
}

/// An error found in the first `n` settings is the error of all of them.
pub proof fn lemma_error_stays(agent: Seq<char>, settings: Seq<(Seq<char>, Seq<char>)>, n: int)
    requires
        0 <= n <= settings.len(),
        collected_settings(agent, settings.take(n)) is Err,
    ensures
        collected_settings(agent, settings) == collected_settings(agent, settings.take(n)),
    decreases settings.len() - n,
{
    if n < settings.len() {
        let next = settings.take(n + 1);
        assert(next.drop_last() =~= settings.take(n));
        lemma_error_stays(agent, settings, n + 1);
    } else {
        assert(settings.take(n) =~= settings);
    }
}

/// A copy of a list of settings.
pub fn copy_settings(settings: &Vec<ToolSetting>) -> (copy: Vec<ToolSetting>)
    ensures
        setting_views(copy@) == setting_views(settings@),
{
    let mut copy: Vec<ToolSetting> = Vec::new();
    let mut i: usize = 0;
    while i < settings.len()
        invariant
            i <= settings.len(),
            setting_views(copy@) =~= setting_views(settings@).take(i as int),
        decreases settings.len() - i,
    {
        let ghost before = setting_views(copy@);
        let s = &settings[i];
        copy.push(ToolSetting { name: s.name.clone(), json: Json { value: s.json.value.clone() } });
        proof {
            assert(setting_views(copy@) =~= before.push((s.name@, s.json.value@)));
        }
        i += 1;
    }
    proof {
        assert(setting_views(settings@).take(settings.len() as int) =~= setting_views(
            settings@,
        ));
    }
    copy
}

} // verus!
