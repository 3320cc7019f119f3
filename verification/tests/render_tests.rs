use selectrs::{group, option, select};
use selectrs::{GroupProps, OptionProps, SelectProps, SelectionState};

fn opt(value: &str, label: &str) -> OptionProps {
    OptionProps {
        value: value.to_string(),
        label: label.to_string(),
        ..Default::default()
    }
}

#[test]
fn option_applies_selected_class_and_style_when_selected() {
    let props = OptionProps {
        label: "Apple".to_string(),
        selected: true,
        class: "base".to_string(),
        style: "color: red".to_string(),
        selected_class: "hot".to_string(),
        selected_style: "color: blue".to_string(),
        ..Default::default()
    };
    let node = option(&props);
    assert_eq!(node.label, "Apple");
    assert_eq!(node.class, "base hot");
    assert_eq!(node.style, "color: red color: blue");
    assert!(!node.disabled);
}

#[test]
fn option_omits_selected_class_and_style_when_unselected() {
    let props = OptionProps {
        label: "Apple".to_string(),
        selected: false,
        disabled: true,
        class: "base".to_string(),
        style: "color: red".to_string(),
        selected_class: "hot".to_string(),
        selected_style: "color: blue".to_string(),
        ..Default::default()
    };
    let node = option(&props);
    assert_eq!(node.class, "base ");
    assert_eq!(node.style, "color: red ");
    assert!(node.disabled);
}

#[test]
fn group_marks_exactly_the_matching_child_selected() {
    let props = GroupProps {
        label: "Fruit".to_string(),
        group: true,
        selected: "banana".to_string(),
        children: vec![
            OptionProps {
                class: "c".to_string(),
                selected_class: "s".to_string(),
                ..opt("apple", "Apple")
            },
            OptionProps {
                class: "c".to_string(),
                selected_class: "s".to_string(),
                ..opt("banana", "Banana")
            },
        ],
        class: "g".to_string(),
        style: "w".to_string(),
    };
    let node = group(&props);
    assert!(node.labeled);
    assert_eq!(node.label, "Fruit");
    assert_eq!(node.class, "g");
    assert_eq!(node.style, "w");
    assert_eq!(node.options.len(), 2);
    assert_eq!(node.options[0].class, "c ");
    assert_eq!(node.options[1].class, "c s");
}

#[test]
fn group_binds_each_click_to_the_childs_own_value() {
    let props = GroupProps {
        children: vec![opt("a", "A"), opt("b", "B"), opt("c", "C")],
        ..Default::default()
    };
    let node = group(&props);
    assert!(!node.labeled);
    let reported: Vec<&str> = node.options.iter().map(|o| o.click_value.as_str()).collect();
    assert_eq!(reported, vec!["a", "b", "c"]);
}

#[test]
fn group_ignores_declared_selected_flag_of_children() {
    let props = GroupProps {
        selected: "b".to_string(),
        children: vec![OptionProps {
            selected: true,
            selected_class: "s".to_string(),
            ..opt("a", "A")
        }],
        ..Default::default()
    };
    let node = group(&props);
    assert_eq!(node.options[0].class, " ");
}

#[test]
fn select_renders_placeholder_when_empty_and_placeholder_set() {
    let props = SelectProps {
        placeholder: "Pick one".to_string(),
        ..Default::default()
    };
    let state = SelectionState::new();
    let node = select(&props, &state);
    assert_eq!(node.placeholder, Some("Pick one".to_string()));
}

#[test]
fn select_hides_placeholder_once_something_is_selected() {
    let props = SelectProps {
        placeholder: "Pick one".to_string(),
        ..Default::default()
    };
    let mut state = SelectionState::new();
    state.handle_group_change(false, "apple".to_string());
    let node = select(&props, &state);
    assert_eq!(node.placeholder, None);
}

#[test]
fn select_hides_placeholder_when_text_empty() {
    let props = SelectProps::default();
    let state = SelectionState::new();
    let node = select(&props, &state);
    assert_eq!(node.placeholder, None);
}

#[test]
fn select_disabled_always_shows_placeholder() {
    let props = SelectProps {
        disabled: true,
        ..Default::default()
    };
    let mut state = SelectionState::new();
    state.handle_group_change(false, "apple".to_string());
    let node = select(&props, &state);
    assert_eq!(node.placeholder, Some("".to_string()));
}

#[test]
fn select_disabled_renders_no_interactive_descendants() {
    let props = SelectProps {
        disabled: true,
        children: vec![GroupProps {
            children: vec![opt("a", "A"), opt("b", "B")],
            ..Default::default()
        }],
        ..Default::default()
    };
    let state = SelectionState::new();
    let node = select(&props, &state);
    assert!(node.disabled);
    assert!(node.groups.is_empty());
    assert!(node.placeholder.is_some());
}

#[test]
fn select_multiple_renders_one_chip_per_value_in_order() {
    let props = SelectProps {
        multiple: true,
        label_class: "chip".to_string(),
        close_class: "close".to_string(),
        ..Default::default()
    };
    let mut state = SelectionState::new();
    state.handle_group_change(true, "x".to_string());
    state.handle_group_change(true, "y".to_string());
    let node = select(&props, &state);
    assert!(node.chip_list);
    assert_eq!(node.chips.len(), 2);
    assert_eq!(node.chips[0].text, "x");
    assert_eq!(node.chips[0].remove_value, "x");
    assert_eq!(node.chips[0].class, "chip");
    assert_eq!(node.chips[0].close_class, "close");
    assert_eq!(node.chips[1].text, "y");
    assert_eq!(node.chips[1].remove_value, "y");
}

#[test]
fn select_single_mode_renders_no_chip_list() {
    let props = SelectProps::default();
    let mut state = SelectionState::new();
    state.handle_group_change(false, "x".to_string());
    let node = select(&props, &state);
    assert!(!node.chip_list);
    assert!(node.chips.is_empty());
}

#[test]
fn select_chip_close_then_remove_chip_round_trip() {
    let props = SelectProps {
        multiple: true,
        ..Default::default()
    };
    let mut state = SelectionState::new();
    state.handle_group_change(true, "x".to_string());
    state.handle_group_change(true, "y".to_string());
    let node = select(&props, &state);
    state.remove_chip(&node.chips[0].remove_value);
    assert_eq!(state.snapshot(), vec!["y".to_string()]);
}

#[test]
fn select_hands_first_selected_value_to_every_group() {
    let props = SelectProps {
        multiple: true,
        children: vec![GroupProps {
            children: vec![
                OptionProps {
                    selected_class: "s".to_string(),
                    ..opt("a", "A")
                },
                OptionProps {
                    selected_class: "s".to_string(),
                    ..opt("b", "B")
                },
            ],
            ..Default::default()
        }],
        ..Default::default()
    };
    let mut state = SelectionState::new();
    state.handle_group_change(true, "b".to_string());
    state.handle_group_change(true, "a".to_string());
    let node = select(&props, &state);
    assert_eq!(node.groups.len(), 1);
    // Only the first selected value is handed down for highlighting.
    assert_eq!(node.groups[0].options[0].class, " ");
    assert_eq!(node.groups[0].options[1].class, " s");
}

#[test]
fn select_with_empty_selection_highlights_nothing() {
    let props = SelectProps {
        children: vec![GroupProps {
            children: vec![OptionProps {
                selected_class: "s".to_string(),
                ..opt("a", "A")
            }],
            ..Default::default()
        }],
        ..Default::default()
    };
    let state = SelectionState::new();
    let node = select(&props, &state);
    assert_eq!(node.groups[0].options[0].class, " ");
}

#[test]
fn select_passes_native_attributes_through() {
    let props = SelectProps {
        name: "n".to_string(),
        id: "i".to_string(),
        required: true,
        size: 5,
        form: "f".to_string(),
        autocomplete: "on".to_string(),
        autofocus: true,
        class: "outer".to_string(),
        style: "width: 1px".to_string(),
        labels_class: "lc".to_string(),
        labels_style: "ls".to_string(),
        select_class: "sc".to_string(),
        select_style: "ss".to_string(),
        ..Default::default()
    };
    let state = SelectionState::new();
    let node = select(&props, &state);
    assert_eq!(node.name, "n");
    assert_eq!(node.id, "i");
    assert!(node.required);
    assert_eq!(node.size, 5);
    assert_eq!(node.form, "f");
    assert_eq!(node.autocomplete, "on");
    assert!(node.autofocus);
    assert_eq!(node.class, "outer");
    assert_eq!(node.style, "width: 1px");
    assert_eq!(node.labels_class, "lc");
    assert_eq!(node.labels_style, "ls");
    assert_eq!(node.select_class, "sc");
    assert_eq!(node.select_style, "ss");
    assert!(!node.multiple);
}

#[test]
fn select_click_round_trip_single_mode() {
    // A full interaction round-trip: render, click a reported value, commit,
    // re-render; the newly clicked option is now the highlighted one.
    let props = SelectProps {
        children: vec![GroupProps {
            children: vec![
                OptionProps {
                    selected_class: "s".to_string(),
                    ..opt("apple", "Apple")
                },
                OptionProps {
                    selected_class: "s".to_string(),
                    ..opt("banana", "Banana")
                },
            ],
            ..Default::default()
        }],
        ..Default::default()
    };
    let mut state = SelectionState::new();
    let node = select(&props, &state);
    let clicked = node.groups[0].options[1].click_value.clone();
    state.handle_group_change(props.multiple, clicked);
    assert_eq!(state.snapshot(), vec!["banana".to_string()]);
    let node = select(&props, &state);
    assert_eq!(node.groups[0].options[0].class, " ");
    assert_eq!(node.groups[0].options[1].class, " s");
}
