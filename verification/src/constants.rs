//! The constant bank and its accessors.
//!
//! The build supplies each named constant or leaves it out. A required
//! constant that was left out, or supplied empty, reads as its sentinel: the
//! constant's name followed by `-dev-unspecified`. A sentinel marks a build
//! that was not configured; it is never real data. An optional constant that
//! was left out reads as `None`: the feature is not packaged.

use vstd::prelude::*;
use crate::text::text_of;

verus! {

/// The names of the constants that a build can supply.
#[derive(Clone, Copy, Debug, PartialEq, Eq, Structural)]
pub enum ConstantName {
    ProgramName,
    LauncherBootclasspath,
    SplashPng,
    Java,
    Jre,
    MainClass,
    BinLocation,
    NetxJar,
    PluginJar,
    JsobjectJar,
    TagsoupJar,
    RhinoJar,
    ItwLibs,
}

impl ConstantName {
    /// The identifier under which the build supplies the constant.
    pub open spec fn spec_identifier(self) -> Seq<char> {
        match self {
            ConstantName::ProgramName => "PROGRAM_NAME"@,
            ConstantName::LauncherBootclasspath => "LAUNCHER_BOOTCLASSPATH"@,
            ConstantName::SplashPng => "SPLASH_PNG"@,
            ConstantName::Java => "JAVA"@,
            ConstantName::Jre => "JRE"@,
            ConstantName::MainClass => "MAIN_CLASS"@,
            ConstantName::BinLocation => "BIN_LOCATION"@,
            ConstantName::NetxJar => "NETX_JAR"@,
            ConstantName::PluginJar => "PLUGIN_JAR"@,
            ConstantName::JsobjectJar => "JSOBJECT_JAR"@,
            ConstantName::TagsoupJar => "TAGSOUP_JAR"@,
            ConstantName::RhinoJar => "RHINO_JAR"@,
            ConstantName::ItwLibs => "ITW_LIBS"@,
        }
    }

    /// The identifier under which the build supplies the constant. The
    /// environment overrides a constant under the same identifier.
    pub fn identifier(self) -> (text: &'static str)
        ensures
            text@ == self.spec_identifier(),
    {
        match self {
            ConstantName::ProgramName => "PROGRAM_NAME",
            ConstantName::LauncherBootclasspath => "LAUNCHER_BOOTCLASSPATH",
            ConstantName::SplashPng => "SPLASH_PNG",
            ConstantName::Java => "JAVA",
            ConstantName::Jre => "JRE",
            ConstantName::MainClass => "MAIN_CLASS",
            ConstantName::BinLocation => "BIN_LOCATION",
            ConstantName::NetxJar => "NETX_JAR",
            ConstantName::PluginJar => "PLUGIN_JAR",
            ConstantName::JsobjectJar => "JSOBJECT_JAR",
            ConstantName::TagsoupJar => "TAGSOUP_JAR",
            ConstantName::RhinoJar => "RHINO_JAR",
            ConstantName::ItwLibs => "ITW_LIBS",
        }
    }

    /// Whether the launcher cannot do without the constant. The companion
    /// archives are optional; everything else is required.
    pub open spec fn is_required(self) -> bool {
        match self {
            ConstantName::PluginJar
            | ConstantName::JsobjectJar
            | ConstantName::TagsoupJar
            | ConstantName::RhinoJar => false,
            _ => true,
        }
    }

    /// The sentinel of the constant: its identifier, then `-dev-unspecified`.
    pub open spec fn spec_sentinel(self) -> Seq<char> {
        self.spec_identifier() + "-dev-unspecified"@
    }

    /// The sentinel of the constant.
    pub fn sentinel(self) -> (text: &'static str)
        ensures
            text@ == self.spec_sentinel(),
            text@.len() > 0,
    {
        proof {
            reveal_strlit("-dev-unspecified");
        }
        match self {
            ConstantName::ProgramName => {
                proof {
                    reveal_strlit("PROGRAM_NAME");
                    reveal_strlit("PROGRAM_NAME-dev-unspecified");
                }
                "PROGRAM_NAME-dev-unspecified"
            },
            ConstantName::LauncherBootclasspath => {
                proof {
                    reveal_strlit("LAUNCHER_BOOTCLASSPATH");
                    reveal_strlit("LAUNCHER_BOOTCLASSPATH-dev-unspecified");
                }
                "LAUNCHER_BOOTCLASSPATH-dev-unspecified"
            },
            ConstantName::SplashPng => {
                proof {
                    reveal_strlit("SPLASH_PNG");
                    reveal_strlit("SPLASH_PNG-dev-unspecified");
                }
                "SPLASH_PNG-dev-unspecified"
            },
            ConstantName::Java => {
                proof {
                    reveal_strlit("JAVA");
                    reveal_strlit("JAVA-dev-unspecified");
                }
                "JAVA-dev-unspecified"
            },
            ConstantName::Jre => {
                proof {
                    reveal_strlit("JRE");
                    reveal_strlit("JRE-dev-unspecified");
                }
                "JRE-dev-unspecified"
            },
            ConstantName::MainClass => {
                proof {
                    reveal_strlit("MAIN_CLASS");
                    reveal_strlit("MAIN_CLASS-dev-unspecified");
                }
                "MAIN_CLASS-dev-unspecified"
            },
            ConstantName::BinLocation => {
                proof {
                    reveal_strlit("BIN_LOCATION");
                    reveal_strlit("BIN_LOCATION-dev-unspecified");
                }
                "BIN_LOCATION-dev-unspecified"
            },
            ConstantName::NetxJar => {
                proof {
                    reveal_strlit("NETX_JAR");
                    reveal_strlit("NETX_JAR-dev-unspecified");
                }
                "NETX_JAR-dev-unspecified"
            },
            ConstantName::PluginJar => {
                proof {
                    reveal_strlit("PLUGIN_JAR");
                    reveal_strlit("PLUGIN_JAR-dev-unspecified");
                }
                "PLUGIN_JAR-dev-unspecified"
            },
            ConstantName::JsobjectJar => {
                proof {
                    reveal_strlit("JSOBJECT_JAR");
                    reveal_strlit("JSOBJECT_JAR-dev-unspecified");
                }
                "JSOBJECT_JAR-dev-unspecified"
            },
            ConstantName::TagsoupJar => {
                proof {
                    reveal_strlit("TAGSOUP_JAR");
                    reveal_strlit("TAGSOUP_JAR-dev-unspecified");
                }
                "TAGSOUP_JAR-dev-unspecified"
            },
            ConstantName::RhinoJar => {
                proof {
                    reveal_strlit("RHINO_JAR");
                    reveal_strlit("RHINO_JAR-dev-unspecified");
                }
                "RHINO_JAR-dev-unspecified"
            },
            ConstantName::ItwLibs => {
                proof {
                    reveal_strlit("ITW_LIBS");
                    reveal_strlit("ITW_LIBS-dev-unspecified");
                }
                "ITW_LIBS-dev-unspecified"
            },
        }
    }
}

/// The constant bank: what the build supplied under each name. It is made
/// once, when the program starts, and only read afterwards.
#[derive(Clone, Copy, Debug)]
pub struct ConstantBank {
    pub program_name: Option<&'static str>,
    pub launcher_bootclasspath: Option<&'static str>,
    pub splash_png: Option<&'static str>,
    pub java: Option<&'static str>,
    pub jre: Option<&'static str>,
    pub main_class: Option<&'static str>,
    pub bin_location: Option<&'static str>,
    pub netx_jar: Option<&'static str>,
    pub plugin_jar: Option<&'static str>,
    pub jsobject_jar: Option<&'static str>,
    pub tagsoup_jar: Option<&'static str>,
    pub rhino_jar: Option<&'static str>,
    pub itw_libs: Option<&'static str>,
}

impl View for ConstantBank {
    type V = Map<ConstantName, Seq<char>>;

    /// The bank as a table from the names that the build supplied to the
    /// characters it supplied for them.
    open spec fn view(&self) -> Map<ConstantName, Seq<char>> {
        Map::new(
            |name: ConstantName| self.spec_lookup(name) is Some,
            |name: ConstantName| self.spec_lookup(name)->0@,
        )
    }
}

impl ConstantBank {
    /// The field that holds the constant of a name.
    pub open spec fn spec_lookup(&self, name: ConstantName) -> Option<&'static str> {
        match name {
            ConstantName::ProgramName => self.program_name,
            ConstantName::LauncherBootclasspath => self.launcher_bootclasspath,
            ConstantName::SplashPng => self.splash_png,
            ConstantName::Java => self.java,
            ConstantName::Jre => self.jre,
            ConstantName::MainClass => self.main_class,
            ConstantName::BinLocation => self.bin_location,
            ConstantName::NetxJar => self.netx_jar,
            ConstantName::PluginJar => self.plugin_jar,
            ConstantName::JsobjectJar => self.jsobject_jar,
            ConstantName::TagsoupJar => self.tagsoup_jar,
            ConstantName::RhinoJar => self.rhino_jar,
            ConstantName::ItwLibs => self.itw_libs,
        }
    }

    /// The bank of a development build: nothing was supplied.
    pub fn development() -> (bank: ConstantBank)
        ensures
            bank@ == Map::<ConstantName, Seq<char>>::empty(),
            forall|name: ConstantName| bank.spec_lookup(name) is None,
    {
        let bank = ConstantBank {
            program_name: None,
            launcher_bootclasspath: None,
            splash_png: None,
            java: None,
            jre: None,
            main_class: None,
            bin_location: None,
            netx_jar: None,
            plugin_jar: None,
            jsobject_jar: None,
            tagsoup_jar: None,
            rhino_jar: None,
            itw_libs: None,
        };
        assert(bank@ =~= Map::<ConstantName, Seq<char>>::empty());
        bank
    }

    /// What the build supplied under a name, if anything.
    pub fn lookup(&self, name: ConstantName) -> (value: Option<&'static str>)
        ensures
            text_of(value) == optional_value(self@, name),
    {
        match name {
            ConstantName::ProgramName => self.program_name,
            ConstantName::LauncherBootclasspath => self.launcher_bootclasspath,
            ConstantName::SplashPng => self.splash_png,
            ConstantName::Java => self.java,
            ConstantName::Jre => self.jre,
            ConstantName::MainClass => self.main_class,
            ConstantName::BinLocation => self.bin_location,
            ConstantName::NetxJar => self.netx_jar,
            ConstantName::PluginJar => self.plugin_jar,
            ConstantName::JsobjectJar => self.jsobject_jar,
            ConstantName::TagsoupJar => self.tagsoup_jar,
            ConstantName::RhinoJar => self.rhino_jar,
            ConstantName::ItwLibs => self.itw_libs,
        }
    }

    /// The value of a constant that always reads as a string: what the build
    /// supplied, or the sentinel where it supplied nothing or nothing but the
    /// empty string.
    fn required(&self, name: ConstantName) -> (value: &'static str)
        ensures
            value@ == required_value(self@, name),
            value@.len() > 0,
    {
        match self.lookup(name) {
            Some(text) => {
                if text.is_empty() {
                    name.sentinel()
                } else {
                    text
                }
            },
            None => name.sentinel(),
        }
    }
}

/// Whether a bank holds usable text under a name: the build supplied it, and
/// not as the empty string.
pub open spec fn is_supplied(bank: Map<ConstantName, Seq<char>>, name: ConstantName) -> bool {
    bank.contains_key(name) && bank[name].len() > 0
}

/// What a required constant reads as: the supplied text, else its sentinel.
pub open spec fn required_value(bank: Map<ConstantName, Seq<char>>, name: ConstantName) -> Seq<
    char,
> {
    if is_supplied(bank, name) {
        bank[name]
    } else {
        name.spec_sentinel()
    }
}

/// What an optional constant reads as: whatever the build supplied, else
/// nothing.
pub open spec fn optional_value(bank: Map<ConstantName, Seq<char>>, name: ConstantName) -> Option<
    Seq<char>,
> {
    if bank.contains_key(name) {
        Some(bank[name])
    } else {
        None
    }
}

/// The interpreter binary.
pub fn get_jre(bank: &ConstantBank) -> (value: &'static str)
    ensures
        value@ == required_value(bank@, ConstantName::Jre),
        value@.len() > 0,
{
    bank.required(ConstantName::Jre)
}

/// The runtime binary.
pub fn get_java(bank: &ConstantBank) -> (value: &'static str)
    ensures
        value@ == required_value(bank@, ConstantName::Java),
        value@.len() > 0,
{
    bank.required(ConstantName::Java)
}

/// The entry-point main class.
pub fn get_main(bank: &ConstantBank) -> (value: &'static str)
    ensures
        value@ == required_value(bank@, ConstantName::MainClass),
        value@.len() > 0,
{
    bank.required(ConstantName::MainClass)
}

/// The program name.
pub fn get_name(bank: &ConstantBank) -> (value: &'static str)
    ensures
        value@ == required_value(bank@, ConstantName::ProgramName),
        value@.len() > 0,
{
    bank.required(ConstantName::ProgramName)
}

/// The binary install location.
pub fn get_bin(bank: &ConstantBank) -> (value: &'static str)
    ensures
        value@ == required_value(bank@, ConstantName::BinLocation),
        value@.len() > 0,
{
    bank.required(ConstantName::BinLocation)
}

/// The splash image path.
pub fn get_splash(bank: &ConstantBank) -> (value: &'static str)
    ensures
        value@ == required_value(bank@, ConstantName::SplashPng),
        value@.len() > 0,
{
    bank.required(ConstantName::SplashPng)
}

/// The core library archive.
pub fn get_netx(bank: &ConstantBank) -> (value: &'static str)
    ensures
        value@ == required_value(bank@, ConstantName::NetxJar),
        value@.len() > 0,
{
    bank.required(ConstantName::NetxJar)
}

/// The library-search string of the build.
pub fn get_itwlibsearch(bank: &ConstantBank) -> (value: &'static str)
    ensures
        value@ == required_value(bank@, ConstantName::ItwLibs),
        value@.len() > 0,
{
    bank.required(ConstantName::ItwLibs)
}

/// The launcher boot classpath.
pub fn get_bootcp(bank: &ConstantBank) -> (value: &'static str)
    ensures
        value@ == required_value(bank@, ConstantName::LauncherBootclasspath),
        value@.len() > 0,
{
    bank.required(ConstantName::LauncherBootclasspath)
}

/// The plugin archive, where one is packaged.
pub fn get_plugin(bank: &ConstantBank) -> (value: Option<&'static str>)
    ensures
        text_of(value) == optional_value(bank@, ConstantName::PluginJar),
{
    bank.lookup(ConstantName::PluginJar)
}

/// The script-object bridge archive, where one is packaged.
pub fn get_jsobject(bank: &ConstantBank) -> (value: Option<&'static str>)
    ensures
        text_of(value) == optional_value(bank@, ConstantName::JsobjectJar),
{
    bank.lookup(ConstantName::JsobjectJar)
}

/// The HTML-cleanup archive, where one is packaged.
pub fn get_tagsoup(bank: &ConstantBank) -> (value: Option<&'static str>)
    ensures
        text_of(value) == optional_value(bank@, ConstantName::TagsoupJar),
{
    bank.lookup(ConstantName::TagsoupJar)
}

/// The scripting-engine archive, where one is packaged.
pub fn get_rhino(bank: &ConstantBank) -> (value: Option<&'static str>)
    ensures
        text_of(value) == optional_value(bank@, ConstantName::RhinoJar),
{
    bank.lookup(ConstantName::RhinoJar)
}

/// A production build: it supplies every required constant.
pub open spec fn is_production_build(bank: Map<ConstantName, Seq<char>>) -> bool {
    forall|name: ConstantName| name.is_required() ==> #[trigger] is_supplied(bank, name)
}

/// A development build: it supplies nothing.
pub open spec fn is_development_build(bank: Map<ConstantName, Seq<char>>) -> bool {
    forall|name: ConstantName| !#[trigger] bank.contains_key(name)
}

/// Every sentinel is longer than the identifier it is made from, so none is
/// empty.
pub proof fn lemma_sentinel_is_not_empty(name: ConstantName)
    ensures
        name.spec_sentinel().len() == name.spec_identifier().len() + 16,
        name.spec_sentinel().len() > 0,
{
    reveal_strlit("-dev-unspecified");
}

/// In a production build every required constant reads as the text that the
/// build supplied: it is not empty, and it is not the sentinel unless the
/// build supplied the sentinel's very text.
pub proof fn lemma_production_build_reads_supplied_text(
    bank: Map<ConstantName, Seq<char>>,
    name: ConstantName,
)
    requires
        is_production_build(bank),
        name.is_required(),
        bank[name] != name.spec_sentinel(),
    ensures
        required_value(bank, name) == bank[name],
        required_value(bank, name).len() > 0,
        required_value(bank, name) != name.spec_sentinel(),
{
    assert(is_supplied(bank, name));
}

/// In a development build every required constant reads as its sentinel,
/// which is not empty.
pub proof fn lemma_development_build_reads_sentinels(
    bank: Map<ConstantName, Seq<char>>,
    name: ConstantName,
)
    requires
        is_development_build(bank),
        name.is_required(),
    ensures
        required_value(bank, name) == name.spec_sentinel(),
        required_value(bank, name).len() > 0,
{
    assert(!bank.contains_key(name));
    lemma_sentinel_is_not_empty(name);
}

} // verus!
