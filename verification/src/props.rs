//! The declarative configuration surface: plain immutable descriptors that the
//! consumer constructs once and the render functions derive output from on
//! every pass. Descriptors own no state; the `selected` flag on an option and
//! the value reported by a click are injected by the surrounding containers at
//! render time.

use vstd::prelude::*;

verus! {

/// One selectable entry: its reported value, displayable label, disabled
/// flag, and base/selected styling pairs. The `selected` flag is derived by
/// the owning group on every render pass, never self-managed.
pub struct OptionProps {
    /// The value reported upward when this option is activated.
    pub value: String,
    /// The displayed label content.
    pub label: String,
    /// Whether this option is currently highlighted as selected; overridden
    /// by the owning group from the selection state on every render pass.
    pub selected: bool,
    /// Whether this option can be interacted with.
    pub disabled: bool,
    /// Base styling class, always applied.
    pub class: String,
    /// Base inline style, always applied.
    pub style: String,
    /// Extra styling class applied only while selected.
    pub selected_class: String,
    /// Extra inline style applied only while selected.
    pub selected_style: String,
}

impl Default for OptionProps {
    /// All fields empty or off.
    fn default() -> (r: Self)
        ensures
            r.value@ == Seq::<char>::empty(),
            r.label@ == Seq::<char>::empty(),
            !r.selected,
            !r.disabled,
            r.class@ == Seq::<char>::empty(),
            r.style@ == Seq::<char>::empty(),
            r.selected_class@ == Seq::<char>::empty(),
            r.selected_style@ == Seq::<char>::empty(),
    {
        OptionProps {
            value: String::new(),
            label: String::new(),
            selected: false,
            disabled: false,
            class: String::new(),
            style: String::new(),
            selected_class: String::new(),
            selected_style: String::new(),
        }
    }
}

/// A container of options, optionally rendered as a native labeled subgroup.
/// It owns no state: `selected` is the single comparison value handed down by
/// the root on every render pass, and each child's click report is derived
/// from the child's own value.
pub struct GroupProps {
    /// The label of the native subgroup wrapper.
    pub label: String,
    /// Whether the children render inside a native labeled subgroup wrapper
    /// or as a flat pass-through.
    pub group: bool,
    /// The single value each child option is compared against for
    /// highlighting; injected by the root on every render pass.
    pub selected: String,
    /// The option descriptors of this group, in display order.
    pub children: Vec<OptionProps>,
    /// Styling class of the subgroup wrapper.
    pub class: String,
    /// Inline style of the subgroup wrapper.
    pub style: String,
}

impl Default for GroupProps {
    /// All fields empty or off; no children.
    fn default() -> (r: Self)
        ensures
            r.label@ == Seq::<char>::empty(),
            !r.group,
            r.selected@ == Seq::<char>::empty(),
            r.children@.len() == 0,
            r.class@ == Seq::<char>::empty(),
            r.style@ == Seq::<char>::empty(),
    {
        GroupProps {
            label: String::new(),
            group: false,
            selected: String::new(),
            children: Vec::new(),
            class: String::new(),
            style: String::new(),
        }
    }
}

/// The root control's configuration: native attribute pass-throughs, the
/// selection cardinality mode, the placeholder, per-part styling hints, and
/// the group descriptors of the option tree. All immutable for the control's
/// lifetime; the selection state itself lives in `SelectionState`.
pub struct SelectProps {
    /// Native form-field name attribute.
    pub name: String,
    /// Native element id attribute.
    pub id: String,
    /// Text of the synthetic disabled first option shown while nothing is
    /// selected.
    pub placeholder: String,
    /// Selection cardinality: toggle-list when true, single replacement
    /// when false.
    pub multiple: bool,
    /// Suppresses all descendant rendering and forces the placeholder.
    pub disabled: bool,
    /// Native required-validation attribute.
    pub required: bool,
    /// Native visible-row-count attribute.
    pub size: u64,
    /// Id of the form element to associate with.
    pub form: String,
    /// Native autocomplete hint.
    pub autocomplete: String,
    /// Native autofocus attribute.
    pub autofocus: bool,
    /// The group descriptors of the option tree, in display order.
    pub children: Vec<GroupProps>,
    /// Styling class of the outer container.
    pub class: String,
    /// Inline style of the outer container.
    pub style: String,
    /// Styling class of the chip-list container.
    pub labels_class: String,
    /// Inline style of the chip-list container.
    pub labels_style: String,
    /// Styling class of each chip.
    pub label_class: String,
    /// Inline style of each chip.
    pub label_style: String,
    /// Styling class of each chip's close control.
    pub close_class: String,
    /// Inline style of each chip's close control.
    pub close_style: String,
    /// Styling class of the native dropdown element.
    pub select_class: String,
    /// Inline style of the native dropdown element.
    pub select_style: String,
}

impl Default for SelectProps {
    /// All fields empty or off; no children.
    fn default() -> (r: Self)
        ensures
            r.name@ == Seq::<char>::empty(),
            r.id@ == Seq::<char>::empty(),
            r.placeholder@ == Seq::<char>::empty(),
            !r.multiple,
            !r.disabled,
            !r.required,
            r.size == 0,
            r.form@ == Seq::<char>::empty(),
            r.autocomplete@ == Seq::<char>::empty(),
            !r.autofocus,
            r.children@.len() == 0,
            r.class@ == Seq::<char>::empty(),
            r.style@ == Seq::<char>::empty(),
            r.labels_class@ == Seq::<char>::empty(),
            r.labels_style@ == Seq::<char>::empty(),
            r.label_class@ == Seq::<char>::empty(),
            r.label_style@ == Seq::<char>::empty(),
            r.close_class@ == Seq::<char>::empty(),
            r.close_style@ == Seq::<char>::empty(),
            r.select_class@ == Seq::<char>::empty(),
            r.select_style@ == Seq::<char>::empty(),
    {
        SelectProps {
            name: String::new(),
            id: String::new(),
            placeholder: String::new(),
            multiple: false,
            disabled: false,
            required: false,
            size: 0,
            form: String::new(),
            autocomplete: String::new(),
            autofocus: false,
            children: Vec::new(),
            class: String::new(),
            style: String::new(),
            labels_class: String::new(),
            labels_style: String::new(),
            label_class: String::new(),
            label_style: String::new(),
            close_class: String::new(),
            close_style: String::new(),
            select_class: String::new(),
            select_style: String::new(),
        }
    }
}

} // verus!
