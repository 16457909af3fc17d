//! What the launcher keeps of a desktop entry, and how the application of
//! the entry is started.

use crate::process::{LaunchCommand, LaunchCommandView};
use vstd::prelude::*;
use vstd::string::StringExecFns;

verus! {

/// The data of a desktop entry.
#[derive(Debug, Clone, PartialEq, Eq)]
pub struct DesktopEntryData {
    appid: String,
    path: String,
    name: String,
    categories: String,
    icon: Option<String>,
}

/// The data of a desktop entry as a mathematical value.
pub struct DesktopEntryView {
    pub appid: Seq<char>,
    pub path: Seq<char>,
    pub name: Seq<char>,
    pub categories: Seq<char>,
    pub icon: Option<Seq<char>>,
}

impl DesktopEntryView {
    /// The command that starts the application: `gtk-launch` with the
    /// application's id, run on the host through `flatpak-spawn` when the
    /// launcher is in a sandbox, and told of the Wayland display, if one is
    /// known, when it is not.
    pub open spec fn launch_command(
        self,
        in_flatpak: bool,
        wayland_display: Option<Seq<char>>,
    ) -> LaunchCommandView {
        if in_flatpak {
            LaunchCommandView {
                program: "flatpak-spawn"@,
                args: seq!["--host"@, "gtk-launch"@, self.appid],
                envs: Seq::empty(),
            }
        } else {
            LaunchCommandView {
                program: "gtk-launch"@,
                args: seq![self.appid],
                envs: match wayland_display {
                    Some(display) => seq![("WAYLAND_DISPLAY"@, display)],
                    None => Seq::empty(),
                },
            }
        }
    }
}

impl DesktopEntryData {
    /// The data as a mathematical value.
    pub closed spec fn view(&self) -> DesktopEntryView {
        DesktopEntryView {
            appid: self.appid@,
            path: self.path@,
            name: self.name@,
            categories: self.categories@,
            icon: crate::text::text_of(self.icon),
        }
    }

    /// Data with nothing in it.
    pub fn new() -> (data: Self)
        ensures
            data@ == (DesktopEntryView {
                appid: Seq::empty(),
                path: Seq::empty(),
                name: Seq::empty(),
                categories: Seq::empty(),
                icon: None,
            }),
    {
        DesktopEntryData {
            appid: String::new(),
            path: String::new(),
            name: String::new(),
            categories: String::new(),
            icon: None,
        }
    }

    /// Replaces all of the data.
    pub fn set_data(
        &mut self,
        appid: String,
        path: String,
        name: String,
        icon: Option<String>,
        categories: String,
    )
        ensures
            final(self)@ == (DesktopEntryView {
                appid: appid@,
                path: path@,
                name: name@,
                categories: categories@,
                icon: crate::text::text_of(icon),
            }),
    {
        self.name = name;
        self.path = path;
        self.appid = appid;
        self.icon = icon;
        self.categories = categories;
    }

    /// The name of the application.
    pub fn name(&self) -> (name: String)
        ensures
            name@ == self@.name,
    {
        self.name.clone()
    }

    /// The path of the desktop entry.
    pub fn path(&self) -> (path: String)
        ensures
            path@ == self@.path,
    {
        self.path.clone()
    }

    /// The categories of the application.
    pub fn categories(&self) -> (categories: String)
        ensures
            categories@ == self@.categories,
    {
        self.categories.clone()
    }

    /// The id of the application.
    pub fn appid(&self) -> (appid: String)
        ensures
            appid@ == self@.appid,
    {
        self.appid.clone()
    }

    /// The icon of the application.
    pub fn icon(&self) -> (icon: Option<String>)
        ensures
            crate::text::text_of(icon) == self@.icon,
    {
        match &self.icon {
            Some(icon) => Some(icon.clone()),
            None => None,
        }
    }

    /// Gives the command that starts the application, for a launcher that is
    /// or is not in a sandbox and knows the Wayland display or does not.
    pub fn launch(&self, in_flatpak: bool, wayland_display: Option<String>) -> (command:
        LaunchCommand)
        ensures
            command@ == self@.launch_command(in_flatpak, crate::text::text_of(wayland_display)),
    {
        let mut args: Vec<String> = Vec::new();
        let mut envs: Vec<(String, String)> = Vec::new();
        let command = if in_flatpak {
            args.push(String::from_str("--host"));
            args.push(String::from_str("gtk-launch"));
            args.push(self.appid.clone());
            LaunchCommand { program: String::from_str("flatpak-spawn"), args, envs }
        } else {
            args.push(self.appid.clone());
            match wayland_display {
                Some(display) => envs.push((String::from_str("WAYLAND_DISPLAY"), display)),
                None => {},
            }
            LaunchCommand { program: String::from_str("gtk-launch"), args, envs }
        };
        assert(command@.args =~= self@.launch_command(
            in_flatpak,
            crate::text::text_of(wayland_display),
        ).args);
        assert(command@.envs =~= self@.launch_command(
            in_flatpak,
            crate::text::text_of(wayland_display),
        ).envs);
        command
    }
}

} // verus!
