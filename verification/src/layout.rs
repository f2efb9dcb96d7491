//! The files and directories of an instance, by name.
//!
//! All names are relative: those of an instance to its directory, those of
//! a runtime to the directory in which runtimes are cached. Components are
//! separated by `/`.

use vstd::prelude::*;
use vstd::string::*;
use crate::identity::{prefix_of, InstanceUuid};
use crate::provision::{runtime_directory, runtime_directory_of};
use crate::text::{append_decimal, decimal, pair_texts, texts};

verus! {

/// The name of the file that holds the durable record of an instance.
pub fn config_file() -> (name: &'static str)
    ensures
        name@ == ".lodestone_config"@,
{
    ".lodestone_config"
}

/// The name of the file that holds the agreement to the licence.
pub fn eula_file() -> (name: &'static str)
    ensures
        name@ == "eula.txt"@,
{
    "eula.txt"
}

/// The name of the file that holds the server's properties.
pub fn properties_file() -> (name: &'static str)
    ensures
        name@ == "server.properties"@,
{
    "server.properties"
}

/// The name of the file that holds the note on JVM arguments.
pub fn jvm_args_file() -> (name: &'static str)
    ensures
        name@ == "user_jvm_args.txt"@,
{
    "user_jvm_args.txt"
}

/// The directory of the macros of an instance.
pub fn macros_directory() -> (name: &'static str)
    ensures
        name@ == "macros"@,
{
    "macros"
}

/// The directory of the resources of an instance.
pub fn resources_directory() -> (name: &'static str)
    ensures
        name@ == "resources"@,
{
    "resources"
}

/// The directory of the world that is backed up.
pub fn world_directory() -> (name: &'static str)
    ensures
        name@ == "world"@,
{
    "world"
}

/// The directory that the backups of an instance are kept in.
pub fn backup_directory() -> (name: &'static str)
    ensures
        name@ == "resources/worlds/backup"@,
{
    "resources/worlds/backup"
}

/// The directories that the first step of provisioning creates inside the
/// directory of the instance.
pub open spec fn layout_directory_names() -> Seq<Seq<char>> {
    seq!["macros"@, "resources/mods"@, "resources/worlds"@, "resources/defaults"@]
}

/// The directories that the first step of provisioning creates inside the
/// directory of the instance, after that directory itself.
pub fn layout_directories() -> (names: Vec<String>)
    ensures
        texts(names@) == layout_directory_names(),
{
    let mut names: Vec<String> = Vec::new();
    names.push(String::from_str("macros"));
    names.push(String::from_str("resources/mods"));
    names.push(String::from_str("resources/worlds"));
    names.push(String::from_str("resources/defaults"));
    names
}

/// The placeholder that stands for the agreement to the licence.
pub fn eula_text() -> (text: &'static str)
    ensures
        text@ == "#generated by Lodestone\neula=true"@,
{
    "#generated by Lodestone\neula=true"
}

/// The properties of a server of which only the port is known.
pub open spec fn minimal_properties(port: u32) -> Seq<char> {
    "server-port="@ + decimal(port as nat)
}

/// The minimal properties file: the one line that sets the port.
pub fn minimal_properties_text(port: u32) -> (text: String)
    ensures
        text@ == minimal_properties(port),
{
    let mut text = String::from_str("server-port=");
    append_decimal(&mut text, port as u64);
    text
}

/// The note that is left where Forge looks for JVM arguments.
pub fn jvm_args_note() -> (text: &'static str)
    ensures
        text@
            == "# Generated by Lodestone\n# This file is ignored by Lodestone\n# Please set arguments using Lodestone"@,
{
    "# Generated by Lodestone\n# This file is ignored by Lodestone\n# Please set arguments using Lodestone"
}

/// The arguments that the Forge installer is run with, after the name of
/// the Java binary.
pub open spec fn installer_argument_texts() -> Seq<Seq<char>> {
    seq!["-jar"@, "forge-installer.jar"@, "--installServer"@]
}

/// The arguments that the Forge installer is run with, after the name of
/// the Java binary.
pub fn installer_arguments() -> (arguments: Vec<String>)
    ensures
        texts(arguments@) == installer_argument_texts(),
{
    let mut arguments: Vec<String> = Vec::new();
    arguments.push(String::from_str("-jar"));
    arguments.push(String::from_str("forge-installer.jar"));
    arguments.push(String::from_str("--installServer"));
    arguments
}

/// The directory in which the runtimes are cached.
pub fn runtime_cache() -> (name: &'static str)
    ensures
        name@ == "java"@,
{
    "java"
}

/// Where the Java binary of a runtime lies.
pub open spec fn java_binary(major_version: u64, macos: bool) -> Seq<char> {
    "java/"@ + runtime_directory(major_version) + if macos {
        "/Contents/Home/bin/java"@
    } else {
        "/bin/java"@
    }
}

/// Where the Java binary of the runtime with the given major version lies.
/// On macOS a runtime keeps its binaries under `Contents/Home`.
pub fn java_binary_path(major_version: u64, macos: bool) -> (path: String)
    ensures
        path@ == java_binary(major_version, macos),
{
    let mut path = String::from_str("java/");
    path.append(runtime_directory_of(major_version).as_str());
    if macos {
        path.append("/Contents/Home/bin/java");
    } else {
        path.append("/bin/java");
    }
    path
}

/// The name of the directory of an instance.
pub open spec fn instance_directory(name: Seq<char>, uuid: Seq<char>) -> Seq<char> {
    name + "-"@ + prefix_of(uuid)
}

/// The name of the directory of an instance: the name of the instance, a
/// hyphen and the prefix of its identity.
pub fn instance_directory_name(name: &str, uuid: &InstanceUuid) -> (directory: String)
    ensures
        directory@ == instance_directory(name@, uuid@),
{
    let mut directory = String::from_str(name);
    directory.append("-");
    directory.append(uuid.prefix().as_str());
    directory
}

/// The text of a properties file with the given keys and values: for
/// each of them, in order, a line of key, `=` and value.
pub open spec fn properties_text(entries: Seq<(Seq<char>, Seq<char>)>) -> Seq<char>
    decreases entries.len(),
{
    if entries.len() == 0 {
        Seq::empty()
    } else {
        properties_text(entries.drop_last()) + entries.last().0 + "="@ + entries.last().1 + "\n"@
    }
}

/// Renders the properties of a server as the text of its properties file.
pub fn render_properties(entries: &Vec<(String, String)>) -> (text: String)
    ensures
        text@ == properties_text(pair_texts(entries@)),
{
    let mut text = String::new();
    let mut i: usize = 0;
    while i < entries.len()
        invariant
            i <= entries.len(),
            text@ == properties_text(pair_texts(entries@).take(i as int)),
        decreases entries.len() - i,
    {
        proof {
            let all = pair_texts(entries@);
            assert(all.take(i + 1).drop_last() =~= all.take(i as int));
        }
        text.append(entries[i].0.as_str());
        text.append("=");
        text.append(entries[i].1.as_str());
        text.append("\n");
        i = i + 1;
    }
    proof {
        assert(pair_texts(entries@).take(entries.len() as int) =~= pair_texts(entries@));
    }
    text
}

} // verus!
