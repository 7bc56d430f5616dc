use vstd::prelude::*;

use crate::record_browser::Key;
use crate::screen_stack::{applied, Transition};
use crate::text::{ends_with, has_suffix, same_text};

verus! {

/// What a picker asks the user to choose.
#[derive(Clone, Copy, Debug, PartialEq, Eq, Structural)]
pub enum Picker {
    /// A saved polygon to edit.
    Polygon,
    /// A scenario of the current map.
    Scenario,
    /// A KML dataset of the current city.
    Kml,
}

/// The screens that the tool menu leads to. Each names what the host must
/// build; the host owns the screens' drawing state.
#[derive(Clone, Debug, PartialEq, Eq)]
pub enum Screen {
    /// The tool menu itself.
    DevTools,
    /// A picker waiting for a choice.
    Wizard(Picker),
    /// A picker of another map.
    CityPicker,
    /// A polygon editor on the saved polygon of this name.
    PolygonEditor(String),
    /// A polygon editor on a new, empty polygon that starts with this name.
    NewPolygon(String),
    /// A scenario viewer on the scenario of this name.
    ScenarioManager(String),
    /// A viewer of the KML dataset at this path.
    KmlViewer(String),
    /// The story map editor.
    StoryMapEditor,
}

/// The buttons of the tool menu.
#[derive(Clone, Copy, Debug, PartialEq, Eq, Structural)]
pub enum MenuButton {
    Close,
    ChangeMap,
    EditPolygon,
    DrawPolygon,
    LoadScenario,
    ViewKml,
    StoryMaps,
}

/// How the host draws below a screen.
#[derive(Clone, Copy, Debug, PartialEq, Eq, Structural)]
pub enum DrawBaselayer {
    /// The map is drawn first.
    DefaultMap,
    /// The screen draws everything itself.
    Custom,
    /// The screen beneath is drawn first.
    PreviousState,
}

/// Where a picker stands after one input cycle.
#[derive(Clone, Debug, PartialEq, Eq)]
pub enum Choice {
    /// Nothing chosen yet.
    Pending,
    /// The picker was closed without a choice.
    Cancelled,
    /// This name was chosen.
    Picked(String),
}

/// A load that failed on a chosen name, for the user to read.
#[derive(Clone, Debug, PartialEq, Eq)]
pub struct Diagnostic {
    pub picker: Picker,
    pub name: String,
    pub reason: String,
}

/// What a picker's cycle comes to: the transition for the host, and what to
/// tell the user when a load failed.
#[derive(Clone, Debug, PartialEq, Eq)]
pub struct Resolution {
    pub transition: Transition<Screen>,
    pub diagnostic: Option<Diagnostic>,
}

/// The name written on a button.
pub open spec fn label_of(b: MenuButton) -> Seq<char> {
    match b {
        MenuButton::Close => "close"@,
        MenuButton::ChangeMap => "change map"@,
        MenuButton::EditPolygon => "edit a polygon"@,
        MenuButton::DrawPolygon => "draw a polygon"@,
        MenuButton::LoadScenario => "load scenario"@,
        MenuButton::ViewKml => "view KML"@,
        MenuButton::StoryMaps => "story maps"@,
    }
}

/// The key that presses a button, if any.
pub open spec fn hotkey_of(b: MenuButton) -> Option<Key> {
    match b {
        MenuButton::Close => Some(Key::Escape),
        MenuButton::ChangeMap => None,
        MenuButton::EditPolygon => Some(Key::Char('e')),
        MenuButton::DrawPolygon => Some(Key::Char('p')),
        MenuButton::LoadScenario => Some(Key::Char('w')),
        MenuButton::ViewKml => Some(Key::Char('k')),
        MenuButton::StoryMaps => Some(Key::Char('s')),
    }
}

/// The button that carries the name `l`, if any.
pub open spec fn button_of_label(l: Seq<char>) -> Option<MenuButton> {
    if l == "close"@ {
        Some(MenuButton::Close)
    } else if l == "change map"@ {
        Some(MenuButton::ChangeMap)
    } else if l == "edit a polygon"@ {
        Some(MenuButton::EditPolygon)
    } else if l == "draw a polygon"@ {
        Some(MenuButton::DrawPolygon)
    } else if l == "load scenario"@ {
        Some(MenuButton::LoadScenario)
    } else if l == "view KML"@ {
        Some(MenuButton::ViewKml)
    } else if l == "story maps"@ {
        Some(MenuButton::StoryMaps)
    } else {
        None
    }
}

/// The name a freshly drawn polygon starts with.
pub open spec fn new_polygon_name() -> Seq<char> {
    "name goes here"@
}

/// The transition that a click on the tool menu asks for.
pub open spec fn menu_outcome(clicked: Option<MenuButton>, t: Transition<Screen>) -> bool {
    match clicked {
        None => t == Transition::<Screen>::Keep,
        Some(MenuButton::Close) => t == Transition::<Screen>::Pop,
        Some(MenuButton::ChangeMap) => t == Transition::Push(Screen::CityPicker),
        Some(MenuButton::EditPolygon) => t == Transition::Push(Screen::Wizard(Picker::Polygon)),
        Some(MenuButton::DrawPolygon) => match t {
            Transition::Push(Screen::NewPolygon(name)) => name@ == new_polygon_name(),
            _ => false,
        },
        Some(MenuButton::LoadScenario) => t == Transition::Push(Screen::Wizard(Picker::Scenario)),
        Some(MenuButton::ViewKml) => t == Transition::Push(Screen::Wizard(Picker::Kml)),
        Some(MenuButton::StoryMaps) => t == Transition::Push(Screen::StoryMapEditor),
    }
}

/// The question a picker asks.
pub open spec fn prompt_of(p: Picker) -> Seq<char> {
    match p {
        Picker::Polygon => "Edit which polygon?"@,
        Picker::Scenario => "Load which scenario?"@,
        Picker::Kml => "View what KML dataset?"@,
    }
}

/// The screen that a picker opens on the chosen name.
pub open spec fn chosen_screen(p: Picker, name: String) -> Screen {
    match p {
        Picker::Polygon => Screen::PolygonEditor(name),
        Picker::Scenario => Screen::ScenarioManager(name),
        Picker::Kml => Screen::KmlViewer(name),
    }
}

/// What a picker's cycle comes to, given the choice and how loading the
/// chosen name went: nothing yet keeps the picker; a cancel pops back; a
/// choice replaces the picker with its screen, unless its load failed, which
/// pops back with a diagnostic naming it.
pub open spec fn resolution_of(p: Picker, choice: Choice, loaded: Result<(), String>) -> Resolution {
    match choice {
        Choice::Pending => Resolution { transition: Transition::Keep, diagnostic: None },
        Choice::Cancelled => Resolution { transition: Transition::Pop, diagnostic: None },
        Choice::Picked(name) => match loaded {
            Err(reason) => Resolution {
                transition: Transition::Pop,
                diagnostic: Some(Diagnostic { picker: p, name, reason }),
            },
            Ok(()) => Resolution {
                transition: Transition::Replace(chosen_screen(p, name)),
                diagnostic: None,
            },
        },
    }
}

/// Whether a file of a city's input directory is a KML dataset that can be
/// viewed: a binary dump, but not the population data.
pub open spec fn is_dataset_file(name: Seq<char>) -> bool {
    ends_with(name, ".bin"@) && !ends_with(name, "popdat.bin"@)
}

/// The viewable datasets among `files`, in their order.
pub open spec fn dataset_files(files: Seq<Seq<char>>) -> Seq<Seq<char>>
    decreases files.len(),
{
    if files.len() == 0 {
        Seq::empty()
    } else {
        let kept = dataset_files(files.drop_last());
        if is_dataset_file(files.last()) {
            kept.push(files.last())
        } else {
            kept
        }
    }
}

/// The texts that a vector of strings holds.
pub open spec fn texts(v: Seq<String>) -> Seq<Seq<char>> {
    v.map_values(|s: String| s@)
}

impl MenuButton {
    /// The name written on the button.
    pub fn label(&self) -> (r: &'static str)
        ensures
            r@ == label_of(*self),
    {
        match self {
            MenuButton::Close => "close",
            MenuButton::ChangeMap => "change map",
            MenuButton::EditPolygon => "edit a polygon",
            MenuButton::DrawPolygon => "draw a polygon",
            MenuButton::LoadScenario => "load scenario",
            MenuButton::ViewKml => "view KML",
            MenuButton::StoryMaps => "story maps",
        }
    }

    /// The key that presses the button, if any.
    pub fn hotkey(&self) -> (r: Option<Key>)
        ensures
            r == hotkey_of(*self),
    {
        match self {
            MenuButton::Close => Some(Key::Escape),
            MenuButton::ChangeMap => None,
            MenuButton::EditPolygon => Some(Key::Char('e')),
            MenuButton::DrawPolygon => Some(Key::Char('p')),
            MenuButton::LoadScenario => Some(Key::Char('w')),
            MenuButton::ViewKml => Some(Key::Char('k')),
            MenuButton::StoryMaps => Some(Key::Char('s')),
        }
    }

    /// The button whose name is `label`; none for a name that no button has.
    pub fn from_label(label: &str) -> (r: Option<MenuButton>)
        ensures
            r == button_of_label(label@),
    {
        if same_text(label, "close") {
            Some(MenuButton::Close)
        } else if same_text(label, "change map") {
            Some(MenuButton::ChangeMap)
        } else if same_text(label, "edit a polygon") {
            Some(MenuButton::EditPolygon)
        } else if same_text(label, "draw a polygon") {
            Some(MenuButton::DrawPolygon)
        } else if same_text(label, "load scenario") {
            Some(MenuButton::LoadScenario)
        } else if same_text(label, "view KML") {
            Some(MenuButton::ViewKml)
        } else if same_text(label, "story maps") {
            Some(MenuButton::StoryMaps)
        } else {
            None
        }
    }
}

impl Picker {
    /// The question the picker asks.
    pub fn prompt(&self) -> (r: &'static str)
        ensures
            r@ == prompt_of(*self),
    {
        match self {
            Picker::Polygon => "Edit which polygon?",
            Picker::Scenario => "Load which scenario?",
            Picker::Kml => "View what KML dataset?",
        }
    }

    /// What the picker's cycle comes to. `loaded` is how loading the chosen
    /// name went; it is read only when a name was chosen.
    pub fn resolve(&self, choice: Choice, loaded: Result<(), String>) -> (r: Resolution)
        ensures
            r == resolution_of(*self, choice, loaded),
    {
        match *self {
            Picker::Polygon => choose_polygon(choice, loaded),
            Picker::Scenario => load_scenario(choice, loaded),
            Picker::Kml => choose_kml(choice, loaded),
        }
    }
}

/// Opens the chosen scenario in place of the picker, or pops back with a
/// diagnostic when it could not be read.
pub fn load_scenario(choice: Choice, loaded: Result<(), String>) -> (r: Resolution)
    ensures
        r == resolution_of(Picker::Scenario, choice, loaded),
{
    match choice {
        Choice::Pending => Resolution { transition: Transition::Keep, diagnostic: None },
        Choice::Cancelled => Resolution { transition: Transition::Pop, diagnostic: None },
        Choice::Picked(name) => match loaded {
            Ok(()) => Resolution {
                transition: Transition::Replace(Screen::ScenarioManager(name)),
                diagnostic: None,
            },
            Err(reason) => Resolution {
                transition: Transition::Pop,
                diagnostic: Some(Diagnostic { picker: Picker::Scenario, name, reason }),
            },
        },
    }
}

/// Opens the chosen polygon in an editor in place of the picker, or pops
/// back with a diagnostic when it could not be read.
pub fn choose_polygon(choice: Choice, loaded: Result<(), String>) -> (r: Resolution)
    ensures
        r == resolution_of(Picker::Polygon, choice, loaded),
{
    match choice {
        Choice::Pending => Resolution { transition: Transition::Keep, diagnostic: None },
        Choice::Cancelled => Resolution { transition: Transition::Pop, diagnostic: None },
        Choice::Picked(name) => match loaded {
            Ok(()) => Resolution {
                transition: Transition::Replace(Screen::PolygonEditor(name)),
                diagnostic: None,
            },
            Err(reason) => Resolution {
                transition: Transition::Pop,
                diagnostic: Some(Diagnostic { picker: Picker::Polygon, name, reason }),
            },
        },
    }
}

/// Opens the chosen KML dataset in a viewer in place of the picker, or pops
/// back with a diagnostic when it could not be read.
pub fn choose_kml(choice: Choice, loaded: Result<(), String>) -> (r: Resolution)
    ensures
        r == resolution_of(Picker::Kml, choice, loaded),
{
    match choice {
        Choice::Pending => Resolution { transition: Transition::Keep, diagnostic: None },
        Choice::Cancelled => Resolution { transition: Transition::Pop, diagnostic: None },
        Choice::Picked(path) => match loaded {
            Ok(()) => Resolution {
                transition: Transition::Replace(Screen::KmlViewer(path)),
                diagnostic: None,
            },
            Err(reason) => Resolution {
                transition: Transition::Pop,
                diagnostic: Some(Diagnostic { picker: Picker::Kml, name: path, reason }),
            },
        },
    }
}

/// Whether `name` is a viewable KML dataset file.
pub fn is_dataset(name: &str) -> (r: bool)
    ensures
        r == is_dataset_file(name@),
{
    has_suffix(name, ".bin") && !has_suffix(name, "popdat.bin")
}

/// The KML picker's candidates: the viewable datasets among the files of a
/// city's input directory, in their order.
pub fn kml_candidates(files: &Vec<String>) -> (r: Vec<String>)
    ensures
        texts(r@) == dataset_files(texts(files@)),
{
    let mut kept: Vec<String> = Vec::new();
    let mut i: usize = 0;
    while i < files.len()
        invariant
            i <= files@.len(),
            texts(kept@) == dataset_files(texts(files@.subrange(0, i as int))),
        decreases files@.len() - i,
    {
        let ghost before = kept@;
        let name = &files[i];
        if is_dataset(name.as_str()) {
            kept.push(name.clone());
        }
        proof {
            let prefix = files@.subrange(0, i as int + 1);
            assert(prefix.drop_last() =~= files@.subrange(0, i as int));
            assert(texts(prefix).drop_last() =~= texts(prefix.drop_last()));
            assert(texts(prefix).last() == files@[i as int]@);
            if is_dataset_file(files@[i as int]@) {
                assert(texts(kept@) =~= texts(before).push(files@[i as int]@));
            } else {
                assert(kept@ == before);
            }
        }
        i = i + 1;
    }
    proof {
        assert(files@.subrange(0, files@.len() as int) =~= files@);
    }
    kept
}

/// The tool menu: a row of buttons that each lead to a tool.
pub struct DevToolsMode {
    map_name: String,
}

impl DevToolsMode {
    /// The menu over the map called `map_name`.
    pub fn new(map_name: &str) -> (r: DevToolsMode)
        ensures
            r.map_name_text() == map_name@,
    {
        DevToolsMode { map_name: map_name.to_owned() }
    }

    /// The name of the map the menu was opened on.
    pub closed spec fn map_name_text(&self) -> Seq<char> {
        self.map_name@
    }

    /// The name of the map the menu was opened on.
    pub fn map_name(&self) -> (r: &str)
        ensures
            r@ == self.map_name_text(),
    {
        self.map_name.as_str()
    }

    /// The transition that a click, or no click, on the menu asks for.
    pub fn event(&self, clicked: Option<MenuButton>) -> (r: Transition<Screen>)
        ensures
            menu_outcome(clicked, r),
    {
        match clicked {
            None => Transition::Keep,
            Some(MenuButton::Close) => Transition::Pop,
            Some(MenuButton::ChangeMap) => Transition::Push(Screen::CityPicker),
            Some(MenuButton::EditPolygon) => Transition::Push(Screen::Wizard(Picker::Polygon)),
            Some(MenuButton::DrawPolygon) => Transition::Push(
                Screen::NewPolygon("name goes here".to_owned()),
            ),
            Some(MenuButton::LoadScenario) => Transition::Push(Screen::Wizard(Picker::Scenario)),
            Some(MenuButton::ViewKml) => Transition::Push(Screen::Wizard(Picker::Kml)),
            Some(MenuButton::StoryMaps) => Transition::Push(Screen::StoryMapEditor),
        }
    }

    /// What the city picker that the menu opened asks for once a city is
    /// chosen: it and the old menu make way for a menu on the new map.
    pub fn city_chosen(&self) -> (r: Transition<Screen>)
        ensures
            r == Transition::PopThenReplace(Screen::DevTools),
    {
        Transition::PopThenReplace(Screen::DevTools)
    }

    /// The menu draws its own background.
    pub fn draw_baselayer(&self) -> (r: DrawBaselayer)
        ensures
            r == DrawBaselayer::Custom,
    {
        DrawBaselayer::Custom
    }
}

/// A picker pushed over a stack hands control back to that stack unchanged
/// when it is cancelled or its choice fails to load, and otherwise leaves the
/// chosen screen where the picker stood.
pub proof fn lemma_picker_returns(s: Seq<Screen>, p: Picker, choice: Choice, loaded: Result<(), String>)
    ensures
        ({
            let t = resolution_of(p, choice, loaded).transition;
            let after = applied(applied(s, Transition::Push(Screen::Wizard(p))), t);
            match choice {
                Choice::Pending => after == s.push(Screen::Wizard(p)),
                Choice::Cancelled => after == s,
                Choice::Picked(name) => if loaded is Err {
                    after == s
                } else {
                    after == s.push(chosen_screen(p, name))
                },
            }
        }),
{
    assert(s.push(Screen::Wizard(p)).drop_last() =~= s);
}

/// Every button is found again by its own name.
pub proof fn lemma_label_round_trip(b: MenuButton)
    ensures
        button_of_label(label_of(b)) == Some(b),
{
    reveal_strlit("close");
    reveal_strlit("change map");
    reveal_strlit("edit a polygon");
    reveal_strlit("draw a polygon");
    reveal_strlit("load scenario");
    reveal_strlit("view KML");
    reveal_strlit("story maps");
    assert("close"@.len() == 5);
    assert("change map"@.len() == 10);
    assert("edit a polygon"@.len() == 14);
    assert("draw a polygon"@.len() == 14);
    assert("load scenario"@.len() == 13);
    assert("view KML"@.len() == 8);
    assert("story maps"@.len() == 10);
    assert("change map"@[0] != "story maps"@[0]);
    assert("edit a polygon"@[0] != "draw a polygon"@[0]);
}

} // verus!
