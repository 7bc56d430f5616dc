use map_editor::devtools::{
    choose_kml, choose_polygon, kml_candidates, load_scenario, Choice, DevToolsMode,
    DrawBaselayer, MenuButton, Picker, Screen,
};
use map_editor::record_browser::Key;
use map_editor::screen_stack::{ScreenStack, Transition};
use map_editor::text::{has_suffix, same_text};

fn contents(s: &ScreenStack<Screen>) -> Vec<Screen> {
    (0..s.len()).map(|i| s.get(i).clone()).collect()
}

#[test]
fn push_then_pop_restores_the_stack() {
    let mut s = ScreenStack::new(Screen::DevTools);
    s.apply(Transition::Push(Screen::CityPicker));
    let before = contents(&s);
    s.apply(Transition::Push(Screen::StoryMapEditor));
    assert_eq!(*s.active(), Screen::StoryMapEditor);
    s.apply(Transition::Pop);
    assert_eq!(contents(&s), before);
    assert_eq!(*s.active(), Screen::CityPicker);
}

#[test]
fn pop_then_replace_collapses_two_frames() {
    let mut s = ScreenStack::new(Screen::DevTools);
    s.apply(Transition::Push(Screen::CityPicker));
    s.apply(Transition::PopThenReplace(Screen::StoryMapEditor));
    assert_eq!(contents(&s), vec![Screen::StoryMapEditor]);

    let mut a = ScreenStack::new(Screen::DevTools);
    a.apply(Transition::Push(Screen::CityPicker));
    a.apply(Transition::Pop);
    a.apply(Transition::Replace(Screen::StoryMapEditor));
    assert_eq!(contents(&a), vec![Screen::StoryMapEditor]);
}

#[test]
fn keep_and_replace() {
    let mut s = ScreenStack::new(Screen::DevTools);
    s.apply(Transition::Keep);
    assert_eq!(contents(&s), vec![Screen::DevTools]);
    s.apply(Transition::Push(Screen::CityPicker));
    s.apply(Transition::Replace(Screen::StoryMapEditor));
    assert_eq!(contents(&s), vec![Screen::DevTools, Screen::StoryMapEditor]);
}

#[test]
fn root_screen_is_never_popped() {
    let mut s = ScreenStack::new(Screen::DevTools);
    assert!(!s.permits(&Transition::Pop));
    assert!(!s.permits(&Transition::PopThenReplace(Screen::CityPicker)));
    assert!(s.permits(&Transition::Replace(Screen::CityPicker)));
    assert!(s.permits(&Transition::Keep));
    s.apply(Transition::Push(Screen::CityPicker));
    assert!(s.permits(&Transition::Pop));
    assert!(s.permits(&Transition::PopThenReplace(Screen::DevTools)));
}

#[test]
fn load_scenario_cancel_then_pick() {
    let menu = DevToolsMode::new("montlake");
    let mut s = ScreenStack::new(Screen::DevTools);
    s.apply(menu.event(Some(MenuButton::LoadScenario)));
    assert_eq!(contents(&s), vec![Screen::DevTools, Screen::Wizard(Picker::Scenario)]);

    let r = Picker::Scenario.resolve(Choice::Pending, Ok(()));
    assert_eq!(r.transition, Transition::Keep);
    s.apply(r.transition);
    assert_eq!(contents(&s).len(), 2);

    let r = Picker::Scenario.resolve(Choice::Cancelled, Ok(()));
    assert!(r.diagnostic.is_none());
    s.apply(r.transition);
    assert_eq!(contents(&s), vec![Screen::DevTools]);

    s.apply(menu.event(Some(MenuButton::LoadScenario)));
    let r = Picker::Scenario.resolve(Choice::Picked("riverside".to_string()), Ok(()));
    assert!(r.diagnostic.is_none());
    s.apply(r.transition);
    assert_eq!(
        contents(&s),
        vec![Screen::DevTools, Screen::ScenarioManager("riverside".to_string())]
    );
}

#[test]
fn broken_scenario_pops_back_with_a_diagnostic() {
    let menu = DevToolsMode::new("montlake");
    let mut s = ScreenStack::new(Screen::DevTools);
    s.apply(menu.event(Some(MenuButton::LoadScenario)));
    let r = load_scenario(
        Choice::Picked("broken_file".to_string()),
        Err("unexpected end of file".to_string()),
    );
    let d = r.diagnostic.clone().unwrap();
    assert_eq!(d.picker, Picker::Scenario);
    assert_eq!(d.name, "broken_file");
    assert_eq!(d.reason, "unexpected end of file");
    s.apply(r.transition);
    assert_eq!(contents(&s), vec![Screen::DevTools]);
}

#[test]
fn polygon_choice_opens_editor_or_pops() {
    let r = choose_polygon(Choice::Picked("huge_seattle".to_string()), Ok(()));
    assert_eq!(
        r.transition,
        Transition::Replace(Screen::PolygonEditor("huge_seattle".to_string()))
    );
    let r = choose_polygon(Choice::Picked("bad".to_string()), Err("no points".to_string()));
    assert_eq!(r.transition, Transition::Pop);
    assert_eq!(r.diagnostic.unwrap().picker, Picker::Polygon);
    assert_eq!(choose_polygon(Choice::Cancelled, Ok(())).transition, Transition::Pop);
}

#[test]
fn kml_choice_opens_viewer() {
    let r = choose_kml(Choice::Picked("input/seattle/parcels.bin".to_string()), Ok(()));
    assert_eq!(
        r.transition,
        Transition::Replace(Screen::KmlViewer("input/seattle/parcels.bin".to_string()))
    );
    assert!(r.diagnostic.is_none());
    assert_eq!(choose_kml(Choice::Pending, Ok(())).transition, Transition::Keep);
    assert_eq!(choose_kml(Choice::Cancelled, Ok(())).transition, Transition::Pop);
}

#[test]
fn broken_kml_dataset_pops_back_with_a_diagnostic() {
    let menu = DevToolsMode::new("montlake");
    let mut s = ScreenStack::new(Screen::DevTools);
    s.apply(menu.event(Some(MenuButton::ViewKml)));
    let r = Picker::Kml.resolve(Choice::Picked("x.bin".to_string()), Err("truncated".to_string()));
    assert_eq!(r.transition, Transition::Pop);
    let d = r.diagnostic.clone().unwrap();
    assert_eq!(d.picker, Picker::Kml);
    assert_eq!(d.name, "x.bin");
    assert_eq!(d.reason, "truncated");
    s.apply(r.transition);
    assert_eq!(contents(&s), vec![Screen::DevTools]);
}

#[test]
fn menu_hotkeys() {
    assert_eq!(MenuButton::Close.hotkey(), Some(Key::Escape));
    assert_eq!(MenuButton::ChangeMap.hotkey(), None);
    assert_eq!(MenuButton::EditPolygon.hotkey(), Some(Key::Char('e')));
    assert_eq!(MenuButton::DrawPolygon.hotkey(), Some(Key::Char('p')));
    assert_eq!(MenuButton::LoadScenario.hotkey(), Some(Key::Char('w')));
    assert_eq!(MenuButton::ViewKml.hotkey(), Some(Key::Char('k')));
    assert_eq!(MenuButton::StoryMaps.hotkey(), Some(Key::Char('s')));
}

#[test]
fn menu_buttons_lead_to_their_tools() {
    let m = DevToolsMode::new("montlake");
    assert_eq!(m.map_name(), "montlake");
    assert_eq!(m.event(None), Transition::Keep);
    assert_eq!(m.event(Some(MenuButton::Close)), Transition::Pop);
    assert_eq!(m.event(Some(MenuButton::ChangeMap)), Transition::Push(Screen::CityPicker));
    assert_eq!(
        m.event(Some(MenuButton::EditPolygon)),
        Transition::Push(Screen::Wizard(Picker::Polygon))
    );
    assert_eq!(
        m.event(Some(MenuButton::DrawPolygon)),
        Transition::Push(Screen::NewPolygon("name goes here".to_string()))
    );
    assert_eq!(
        m.event(Some(MenuButton::ViewKml)),
        Transition::Push(Screen::Wizard(Picker::Kml))
    );
    assert_eq!(m.event(Some(MenuButton::StoryMaps)), Transition::Push(Screen::StoryMapEditor));
    assert_eq!(m.draw_baselayer(), DrawBaselayer::Custom);
}

#[test]
fn changing_map_replaces_picker_and_menu() {
    let m = DevToolsMode::new("montlake");
    let mut s = ScreenStack::new(Screen::DevTools);
    s.apply(m.event(Some(MenuButton::ChangeMap)));
    s.apply(m.city_chosen());
    assert_eq!(contents(&s), vec![Screen::DevTools]);
}

#[test]
fn labels_name_their_buttons() {
    let all = [
        MenuButton::Close,
        MenuButton::ChangeMap,
        MenuButton::EditPolygon,
        MenuButton::DrawPolygon,
        MenuButton::LoadScenario,
        MenuButton::ViewKml,
        MenuButton::StoryMaps,
    ];
    for b in all {
        assert_eq!(MenuButton::from_label(b.label()), Some(b));
    }
    assert_eq!(MenuButton::from_label("view KML"), Some(MenuButton::ViewKml));
    assert_eq!(MenuButton::from_label("view kml"), None);
    assert_eq!(MenuButton::from_label(""), None);
}

#[test]
fn picker_prompts() {
    assert_eq!(Picker::Polygon.prompt(), "Edit which polygon?");
    assert_eq!(Picker::Scenario.prompt(), "Load which scenario?");
    assert_eq!(Picker::Kml.prompt(), "View what KML dataset?");
}

#[test]
fn kml_candidates_keep_binary_dumps_but_population() {
    let files: Vec<String> = ["parcels.bin", "popdat.bin", "notes.txt", "trees.bin", "bin", "old_popdat.bin"]
        .iter()
        .map(|s| s.to_string())
        .collect();
    assert_eq!(kml_candidates(&files), vec!["parcels.bin".to_string(), "trees.bin".to_string()]);
    assert!(kml_candidates(&Vec::new()).is_empty());
}

#[test]
fn text_helpers() {
    assert!(same_text("straße", "straße"));
    assert!(!same_text("abc", "abd"));
    assert!(!same_text("abc", "ab"));
    assert!(has_suffix("map.bin", ".bin"));
    assert!(has_suffix("é.bin", ".bin"));
    assert!(!has_suffix("map.bit", ".bin"));
    assert!(!has_suffix("in", ".bin"));
    assert!(has_suffix("anything", ""));
}
