//! The editor window.
use anvi::controller::Cmd;
use anvi::gui::{
    DEFAULT_GRID, FontWork, Gui, GuiFont, ImeEvent, MAX_DRAW_FAILURES, Next, RedrawOutcome,
    RedrawWork, UserEvent, Wanted, WindowEvent, Work, font_in_use, run, wanted_font,
};
use anvi::ime::{Composition, Preedit};
use anvi::keys::{CONTROL_BIT, KeyEvent, KeyName, LogicalKey, PhysicalKey, SHIFT_BIT};

const WINDOW: u64 = 7;

fn shown() -> Gui {
    let mut gui = Gui::default();
    assert!(gui.resumed());
    assert_eq!(gui.on_surface::<&str>(Ok(WINDOW)), Next::Send(Cmd::Start));
    assert!(!gui.resumed());
    gui
}

fn key(text: &str) -> WindowEvent {
    WindowEvent::KeyboardInput {
        event: KeyEvent {
            physical_key: PhysicalKey::Other,
            logical_key: LogicalKey::Character(text.to_string()),
            pressed: true,
        },
        is_synthetic: false,
    }
}

fn input(keys: &str) -> Work {
    Work::Send(Cmd::Input(keys.to_string()))
}

#[test]
fn the_window_starts_with_the_default_grid() {
    assert_eq!(DEFAULT_GRID, (90, 28));
    assert_eq!(Gui::default().grid(), (90, 28));
    assert_eq!(Gui::default().on_surface(Err("no window")), Next::Die("no window"));
}

#[test]
fn typed_keys_are_sent_in_notation() {
    let mut gui = shown();
    assert_eq!(gui.window_event(WINDOW, key("a")), input("a"));
    assert_eq!(gui.window_event(WINDOW, key("<")), input("<lt>"));
    let held = WindowEvent::ModifiersChanged(CONTROL_BIT | SHIFT_BIT);
    assert_eq!(gui.window_event(WINDOW, held), Work::Nothing);
    let tab = WindowEvent::KeyboardInput {
        event: KeyEvent {
            physical_key: PhysicalKey::Other,
            logical_key: LogicalKey::Named(KeyName::Tab),
            pressed: true,
        },
        is_synthetic: false,
    };
    assert_eq!(gui.window_event(WINDOW, tab), input("<C-S-Tab>"));
    assert_eq!(gui.window_event(WINDOW, WindowEvent::FocusLost), Work::Redraw);
    assert_eq!(gui.window_event(WINDOW, key("a")), input("a"));
}

#[test]
fn keys_that_nobody_pressed_are_dropped() {
    let gui = shown();
    let event = KeyEvent {
        physical_key: PhysicalKey::Other,
        logical_key: LogicalKey::Character("a".to_string()),
        pressed: true,
    };
    assert_eq!(gui.on_key(&event, false), Some("a".to_string()));
    assert_eq!(gui.on_key(&event, true), None);
    assert_eq!(gui.on_key(&KeyEvent { pressed: false, ..event }, false), None);
    let unknown = KeyEvent {
        physical_key: PhysicalKey::Other,
        logical_key: LogicalKey::Named(KeyName::Other),
        pressed: true,
    };
    assert_eq!(gui.on_key(&unknown, false), None);
}

#[test]
fn a_composition_keeps_its_keys() {
    let mut gui = shown();
    let begin = WindowEvent::Ime(ImeEvent::Enabled);
    assert_eq!(gui.window_event(WINDOW, begin), Work::Nothing);
    assert_eq!(gui.window_event(WINDOW, key("a")), Work::Nothing);
    let preedit = ImeEvent::Preedit { text: "に".to_string(), target: Some((0, 3)) };
    assert_eq!(
        gui.window_event(WINDOW, WindowEvent::Ime(preedit)),
        Work::PlaceImeAndRedraw
    );
    assert_eq!(
        gui.preedit(),
        &Preedit { text: "に".to_string(), target: Some((0, 3)) }
    );
    let commit = ImeEvent::Commit("全角＜と半角<".to_string());
    assert_eq!(
        gui.window_event(WINDOW, WindowEvent::Ime(commit)),
        Work::SendAndRedraw(Cmd::Input("全角＜と半角<lt>".to_string()))
    );
    assert!(gui.preedit().is_empty());
    assert_eq!(gui.window_event(WINDOW, key("a")), input("a"));
}

#[test]
fn a_composition_ends_without_a_trace() {
    let mut gui = shown();
    let preedit = || ImeEvent::Preedit { text: "に".to_string(), target: None };
    for end in [WindowEvent::Ime(ImeEvent::Disabled), WindowEvent::FocusLost] {
        gui.on_ime(preedit());
        assert_eq!(gui.window_event(WINDOW, key("a")), Work::Nothing);
        assert_eq!(gui.window_event(WINDOW, end), Work::Redraw);
        assert_eq!(gui.preedit(), &Preedit::default());
        assert_eq!(gui.window_event(WINDOW, key("a")), input("a"));
    }
}

#[test]
fn empty_text_opens_no_composition() {
    let mut composition = Composition::default();
    composition.set_preedit(String::new(), None);
    assert!(!composition.composing());
    composition.begin();
    assert!(composition.composing());
    assert!(composition.preedit().is_empty());
    composition.set_preedit("x".to_string(), None);
    composition.set_preedit(String::new(), None);
    assert!(composition.composing());
    composition.clear();
    assert!(!composition.composing());
}

#[test]
fn other_windows_are_ignored() {
    let mut gui = shown();
    assert_eq!(gui.window_event(8, key("a")), Work::Nothing);
    assert_eq!(gui.window_event(8, WindowEvent::CloseRequested), Work::Nothing);
    let mut gui = Gui::default();
    assert_eq!(gui.window_event(WINDOW, WindowEvent::CloseRequested), Work::Nothing);
}

#[test]
fn window_events_call_for_their_work() {
    let mut gui = shown();
    assert_eq!(
        gui.window_event(WINDOW, WindowEvent::CloseRequested),
        Work::Send(Cmd::CloseRequested)
    );
    assert_eq!(
        gui.window_event(WINDOW, WindowEvent::Resized { width: 640, height: 480 }),
        Work::Resize { width: 640, height: 480 }
    );
    assert_eq!(gui.window_event(WINDOW, WindowEvent::ScaleFactorChanged), Work::Rescale);
    assert_eq!(gui.window_event(WINDOW, WindowEvent::RedrawRequested), Work::Draw);
    assert_eq!(gui.window_event(WINDOW, WindowEvent::Other), Work::Nothing);
}

#[test]
fn a_minimised_window_has_no_size() {
    let gui = shown();
    assert_eq!(gui.on_resized(0, 0), Work::Nothing);
    assert_eq!(gui.on_resized(640, 0), Work::Nothing);
    assert_eq!(gui.on_resized(0, 480), Work::Nothing);
    assert_eq!(gui.on_resized(1, 1), Work::Resize { width: 1, height: 1 });
}

#[test]
fn a_grid_is_told_once() {
    let mut gui = shown();
    assert_eq!(gui.set_grid(DEFAULT_GRID), None);
    assert_eq!(gui.set_grid((80, 24)), Some(Cmd::Resize { cols: 80, rows: 24 }));
    assert_eq!(gui.set_grid((80, 24)), None);
    assert_eq!(gui.on_grid::<&str>(Ok((80, 24))), Next::Nothing);
    assert_eq!(
        gui.on_grid::<&str>(Ok((81, 24))),
        Next::Send(Cmd::Resize { cols: 81, rows: 24 })
    );
    assert_eq!(gui.on_grid(Err("no target")), Next::Die("no target"));
    assert_eq!(gui.grid(), (81, 24));
    assert_eq!(gui.on_font(None), None);
    assert_eq!(gui.on_font(Some((81, 25))), Some(Cmd::Resize { cols: 81, rows: 25 }));
}

#[test]
fn only_failures_in_a_row_count() {
    assert_eq!(MAX_DRAW_FAILURES, 3);
    let mut gui = shown();
    assert_eq!(gui.on_draw(Err("lost")), Next::Rebuild);
    assert_eq!(gui.on_draw(Err("lost")), Next::Rebuild);
    assert_eq!(gui.on_draw::<&str>(Ok(())), Next::Nothing);
    assert_eq!(gui.on_draw(Err("lost")), Next::Rebuild);
    assert_eq!(gui.on_draw(Err("lost")), Next::Rebuild);
    assert_eq!(gui.on_draw(Err("lost")), Next::Die("lost"));
}

fn wanted(gui: &Gui, event: UserEvent<u8, &'static str>) -> Wanted<u8, &'static str> {
    gui.user_event(event, 5)
}

#[test]
fn instructions_of_an_earlier_neovim_are_dropped() {
    let gui = shown();
    assert!(matches!(
        wanted(&gui, UserEvent::Redraw { generation: 5, batch: 1 }),
        Wanted::Redraw(1)
    ));
    assert!(matches!(
        wanted(&gui, UserEvent::Redraw { generation: 4, batch: 1 }),
        Wanted::Nothing
    ));
}

#[test]
fn what_needs_a_window_waits_for_one() {
    let gui = Gui::default();
    assert!(matches!(wanted(&gui, UserEvent::Show { target: 3 }), Wanted::Nothing));
    assert!(matches!(wanted(&gui, UserEvent::Hide), Wanted::Nothing));
    assert!(matches!(wanted(&gui, UserEvent::Focus), Wanted::Nothing));
    let gui = shown();
    assert!(matches!(
        wanted(&gui, UserEvent::Show { target: 3 }),
        Wanted::Show { target: 3 }
    ));
    assert!(matches!(wanted(&gui, UserEvent::Hide), Wanted::Hide));
    assert!(matches!(wanted(&gui, UserEvent::Focus), Wanted::Focus));
    assert!(matches!(wanted(&gui, UserEvent::Hotkey), Wanted::Send(Cmd::Hotkey)));
    assert!(matches!(
        wanted(&gui, UserEvent::ToggleAutostart),
        Wanted::ToggleAutostart
    ));
    assert!(matches!(wanted(&gui, UserEvent::Quit), Wanted::Quit));
    assert!(matches!(wanted(&gui, UserEvent::Fatal("e")), Wanted::Die("e")));
}

#[test]
fn a_batch_says_what_to_do() {
    let all = RedrawOutcome {
        font_changed: true,
        mode_changed: true,
        title_changed: true,
        flushed: true,
    };
    let nothing = RedrawWork {
        apply_guifont: false,
        set_ime_allowed: false,
        set_title: false,
        request_redraw: false,
    };
    assert_eq!(
        shown().on_redraw(Some(all)),
        RedrawWork {
            apply_guifont: true,
            set_ime_allowed: true,
            set_title: true,
            request_redraw: true
        }
    );
    assert_eq!(
        Gui::default().on_redraw(Some(all)),
        RedrawWork { apply_guifont: true, ..nothing }
    );
    assert_eq!(shown().on_redraw(None), nothing);
    let flushed = RedrawOutcome {
        font_changed: false,
        mode_changed: false,
        title_changed: false,
        flushed: true,
    };
    assert_eq!(
        shown().on_redraw(Some(flushed)),
        RedrawWork { request_redraw: true, ..nothing }
    );
}

#[test]
fn an_unreadable_font_keeps_the_present_one() {
    assert_eq!(wanted_font(None, "default"), Some("default"));
    assert_eq!(wanted_font(Some(GuiFont::Unspecified), "default"), Some("default"));
    assert_eq!(wanted_font(Some(GuiFont::Spec("mine")), "default"), Some("mine"));
    assert_eq!(wanted_font(Some(GuiFont::Invalid), "default"), None);
    assert_eq!(shown().apply_guifont(true), FontWork::Keep);
    assert_eq!(shown().apply_guifont(false), FontWork::Switch);
    assert_eq!(Gui::default().apply_guifont(false), FontWork::Remember);
}

#[test]
fn the_cause_of_an_exit_is_its_result() {
    assert_eq!(run(Some("cause"), Err("loop")), Err("cause"));
    assert_eq!(run(Some("cause"), Ok(())), Err("cause"));
    assert_eq!(run(None, Err("loop")), Err("loop"));
    assert_eq!(run::<&str>(None, Ok(())), Ok(()));
}

#[test]
fn a_font_is_in_use_once_the_window_has_it() {
    for (work, switched, font) in [
        (FontWork::Keep, false, "present"),
        (FontWork::Keep, true, "present"),
        (FontWork::Remember, false, "wanted"),
        (FontWork::Switch, false, "present"),
        (FontWork::Switch, true, "wanted"),
    ] {
        assert_eq!(font_in_use("present", "wanted", work, switched), font);
    }
}

#[test]
fn text_stays_when_a_composition_begins() {
    let mut composition = Composition::default();
    composition.set_preedit("x".to_string(), None);
    composition.begin();
    assert_eq!(composition.preedit().text, "x");
}
