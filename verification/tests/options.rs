use ua571::options::{MenuSection, OptionsState, SystemMode, WeaponStatus};

#[test]
fn section_wraps() {
    let mut o = OptionsState::new();
    assert_eq!(o.focus, MenuSection::SystemMode);
    o.focus_prev_section();
    assert_eq!(o.focus, MenuSection::TargetSelect);
    o.focus_next_section();
    assert_eq!(o.focus, MenuSection::SystemMode);
}

#[test]
fn selection_cycles() {
    let mut o = OptionsState::new();
    o.focus = MenuSection::WeaponStatus;
    assert_eq!(o.weapon_status, WeaponStatus::Safe);
    o.select_down();
    assert_eq!(o.weapon_status, WeaponStatus::Armed);
    o.select_down();
    assert_eq!(o.weapon_status, WeaponStatus::Safe);
}

#[test]
fn select_up_undoes_select_down() {
    for section in MenuSection::ALL {
        let mut o = OptionsState::new();
        o.focus = section;
        let before = o;
        o.select_down();
        o.select_up();
        assert_eq!(o, before);
    }
}

#[test]
fn section_indices_round_trip() {
    for (i, s) in MenuSection::ALL.iter().enumerate() {
        assert_eq!(s.index(), i);
        assert_eq!(MenuSection::from_index(i), Some(*s));
        assert_eq!(s.next().prev(), *s);
    }
    assert_eq!(MenuSection::from_index(7), None);
}

#[test]
fn section_options_list_labels_and_selection() {
    let mut o = OptionsState::new();
    o.system_mode = SystemMode::SemiAuto;
    let (labels, selected) = o.section_options(MenuSection::SystemMode);
    assert_eq!(labels.len(), MenuSection::SystemMode.option_count());
    assert_eq!(labels[selected], SystemMode::SemiAuto.label());
    o.focus = MenuSection::SystemMode;
    assert_eq!(o.focused_selection_index(), selected);
}

#[test]
fn select_down_cycles_back_after_option_count_steps() {
    for section in MenuSection::ALL {
        let mut o = OptionsState::new();
        o.focus = section;
        let before = o;
        for _ in 0..section.option_count() {
            o.select_down();
        }
        assert_eq!(o, before);
    }
}
