//! Pure render derivation. Each function maps immutable prop descriptors and
//! the current selection to a plain render-node value: the markup the host
//! layer would emit, with click wiring represented as the value string a click
//! on that node reports upward.

use crate::props::{GroupProps, OptionProps, SelectProps};
use crate::state::{first_selected, SelectionState};
use vstd::prelude::*;
use vstd::string::StringExecFns;

verus! {

/// The effective styling text of an option: the base text, a separating
/// space, then the selected-state extra exactly when the option is selected.
pub open spec fn effective_text(base: Seq<char>, extra: Seq<char>, active: bool) -> Seq<char> {
    base + seq![' '] + if active {
        extra
    } else {
        Seq::<char>::empty()
    }
}

/// Whether the placeholder pseudo-option renders: exactly when a non-empty
/// placeholder text meets an empty selection, or the whole control is
/// disabled.
pub open spec fn placeholder_visible(
    placeholder: Seq<char>,
    selection: Seq<Seq<char>>,
    disabled: bool,
) -> bool {
    (placeholder.len() > 0 && selection.len() == 0) || disabled
}

/// One rendered selectable entry as the host layer sees it.
pub struct OptionNode {
    /// The displayed label content.
    pub label: String,
    /// The effective styling class, selected-state extra included.
    pub class: String,
    /// The effective inline style, selected-state extra included.
    pub style: String,
    /// Whether the entry is rendered as non-interactive.
    pub disabled: bool,
}

/// A rendered entry inside a group, with its click wiring: the value string
/// that a click on this entry reports upward.
pub struct RenderedOption {
    /// The value reported upward when this entry is clicked.
    pub click_value: String,
    /// The displayed label content.
    pub label: String,
    /// The effective styling class, selected-state extra included.
    pub class: String,
    /// The effective inline style, selected-state extra included.
    pub style: String,
    /// Whether the entry is rendered as non-interactive.
    pub disabled: bool,
}

/// A rendered group of entries, flat or wrapped in a native labeled subgroup.
pub struct GroupNode {
    /// Whether the entries sit inside a native labeled subgroup wrapper.
    pub labeled: bool,
    /// The label of the subgroup wrapper.
    pub label: String,
    /// Styling class of the subgroup wrapper.
    pub class: String,
    /// Inline style of the subgroup wrapper.
    pub style: String,
    /// The rendered entries, in the order of the option descriptors.
    pub options: Vec<RenderedOption>,
}

/// One removable chip of the multi-select chip list.
pub struct Chip {
    /// The displayed chip text: the selected value itself.
    pub text: String,
    /// The value handed to the selection state's chip removal when the
    /// chip's close control is clicked.
    pub remove_value: String,
    /// Styling class of the chip.
    pub class: String,
    /// Inline style of the chip.
    pub style: String,
    /// Styling class of the chip's close control.
    pub close_class: String,
    /// Inline style of the chip's close control.
    pub close_style: String,
}

/// The whole rendered control.
pub struct SelectNode {
    /// Styling class of the outer container.
    pub class: String,
    /// Inline style of the outer container.
    pub style: String,
    /// Whether the chip-list container renders at all (multi-select only).
    pub chip_list: bool,
    /// Styling class of the chip-list container.
    pub labels_class: String,
    /// Inline style of the chip-list container.
    pub labels_style: String,
    /// One chip per selected value, in selection order; empty outside
    /// multi-select mode.
    pub chips: Vec<Chip>,
    /// Native element id attribute.
    pub id: String,
    /// Native form-field name attribute.
    pub name: String,
    /// Native multiple-selection attribute.
    pub multiple: bool,
    /// Styling class of the native dropdown element.
    pub select_class: String,
    /// Inline style of the native dropdown element.
    pub select_style: String,
    /// Native disabled attribute.
    pub disabled: bool,
    /// Native visible-row-count attribute.
    pub size: u64,
    /// Native required-validation attribute.
    pub required: bool,
    /// Id of the form element to associate with.
    pub form: String,
    /// Native autocomplete hint.
    pub autocomplete: String,
    /// Native autofocus attribute.
    pub autofocus: bool,
    /// The placeholder pseudo-option's text, present exactly when the
    /// pseudo-option renders.
    pub placeholder: Option<String>,
    /// The rendered groups; empty while the control is disabled, so that a
    /// disabled control offers no interactive descendants at all.
    pub groups: Vec<GroupNode>,
}

/// How a rendered entry relates to its option descriptor under the
/// highlighting comparison value `selected`: label and disabled pass through,
/// the click report is the descriptor's own value, and the styling texts
/// carry the selected-state extras exactly when the descriptor's value equals
/// `selected`.
pub open spec fn option_rendered(
    ro: RenderedOption,
    child: OptionProps,
    selected: Seq<char>,
) -> bool {
    &&& ro.click_value@ == child.value@
    &&& ro.label@ == child.label@
    &&& ro.disabled == child.disabled
    &&& ro.class@ == effective_text(child.class@, child.selected_class@, child.value@ == selected)
    &&& ro.style@ == effective_text(child.style@, child.selected_style@, child.value@ == selected)
}

/// How a rendered group relates to its descriptor under the highlighting
/// comparison value `selected`: wrapper fields pass through and every child
/// entry is rendered per `option_rendered`.
pub open spec fn group_rendered(node: GroupNode, props: GroupProps, selected: Seq<char>) -> bool {
    &&& node.labeled == props.group
    &&& node.label@ == props.label@
    &&& node.class@ == props.class@
    &&& node.style@ == props.style@
    &&& node.options@.len() == props.children@.len()
    &&& forall|i: int|
        0 <= i < props.children@.len() ==> option_rendered(
            #[trigger] node.options@[i],
            props.children@[i],
            selected,
        )
}

/// How one chip relates to the selected value it stands for.
pub open spec fn chip_rendered(c: Chip, value: Seq<char>, props: SelectProps) -> bool {
    &&& c.text@ == value
    &&& c.remove_value@ == value
    &&& c.class@ == props.label_class@
    &&& c.style@ == props.label_style@
    &&& c.close_class@ == props.close_class@
    &&& c.close_style@ == props.close_style@
}

/// The base text, a space, and the extra exactly when `active`.
fn styled_text(base: &String, extra: &String, active: bool) -> (r: String)
    ensures
        r@ == effective_text(base@, extra@, active),
{
    let mut r = base.clone();
    r.append(" ");
    if active {
        r.append(extra.as_str());
    }
    proof {
        reveal_strlit(" ");
        assert(" "@ =~= seq![' ']);
        assert(r@ =~= effective_text(base@, extra@, active));
    }
    r
}

/// Render one selectable entry: label and disabled pass through; the
/// selected-state styling extras are applied exactly when `selected` is set.
pub fn option(props: &OptionProps) -> (node: OptionNode)
    ensures
        node.label@ == props.label@,
        node.disabled == props.disabled,
        node.class@ == effective_text(props.class@, props.selected_class@, props.selected),
        node.style@ == effective_text(props.style@, props.selected_style@, props.selected),
{
    OptionNode {
        label: props.label.clone(),
        class: styled_text(&props.class, &props.selected_class, props.selected),
        style: styled_text(&props.style, &props.selected_style, props.selected),
        disabled: props.disabled,
    }
}

/// Render the entries of a group: each child's `selected` flag is overridden
/// with a comparison of its value against `selected`, its click report is
/// bound to its own value, and everything else passes through untouched.
fn render_options(children: &Vec<OptionProps>, selected: &String) -> (out: Vec<RenderedOption>)
    ensures
        out@.len() == children@.len(),
        forall|i: int|
            0 <= i < children@.len() ==> option_rendered(
                #[trigger] out@[i],
                children@[i],
                selected@,
            ),
{
    let n = children.len();
    let mut out: Vec<RenderedOption> = Vec::new();
    let mut i: usize = 0;
    while i < n
        invariant
            n == children@.len(),
            i <= n,
            out@.len() == i,
            forall|j: int|
                0 <= j < i ==> option_rendered(#[trigger] out@[j], children@[j], selected@),
        decreases n - i,
    {
        let child = &children[i];
        let is_selected = child.value == *selected;
        let derived = OptionProps {
            value: child.value.clone(),
            label: child.label.clone(),
            selected: is_selected,
            disabled: child.disabled,
            class: child.class.clone(),
            style: child.style.clone(),
            selected_class: child.selected_class.clone(),
            selected_style: child.selected_style.clone(),
        };
        let node = option(&derived);
        out.push(
            RenderedOption {
                click_value: child.value.clone(),
                label: node.label,
                class: node.class,
                style: node.style,
                disabled: node.disabled,
            },
        );
        i += 1;
    }
    out
}

/// Render a group: the wrapper fields pass through, and every child entry is
/// derived from the group's own `selected` comparison value.
pub fn group(props: &GroupProps) -> (node: GroupNode)
    ensures
        group_rendered(node, *props, props.selected@),
{
    GroupNode {
        labeled: props.group,
        label: props.label.clone(),
        class: props.class.clone(),
        style: props.style.clone(),
        options: render_options(&props.children, &props.selected),
    }
}

/// Render the whole control from its configuration and the current selection:
/// the chip list (multi-select only, one chip per selected value in order),
/// the placeholder pseudo-option exactly per `placeholder_visible`, and the
/// groups — none at all while disabled, otherwise one per descriptor, each
/// handed the first selected value as its highlighting comparison value.
///
/// Known limitation kept from the control's observable behavior: every group
/// receives only the first selected value, so in multi-select mode options
/// other than the first selected one are not highlighted.
pub fn select(props: &SelectProps, state: &SelectionState) -> (node: SelectNode)
    ensures
        node.class@ == props.class@,
        node.style@ == props.style@,
        node.id@ == props.id@,
        node.name@ == props.name@,
        node.multiple == props.multiple,
        node.select_class@ == props.select_class@,
        node.select_style@ == props.select_style@,
        node.disabled == props.disabled,
        node.size == props.size,
        node.required == props.required,
        node.form@ == props.form@,
        node.autocomplete@ == props.autocomplete@,
        node.autofocus == props.autofocus,
        node.labels_class@ == props.labels_class@,
        node.labels_style@ == props.labels_style@,
        node.chip_list == props.multiple,
        node.chips@.len() == if props.multiple {
            state@.len() as int
        } else {
            0int
        },
        forall|i: int|
            0 <= i < node.chips@.len() ==> chip_rendered(
                #[trigger] node.chips@[i],
                state@[i],
                *props,
            ),
        (node.placeholder is Some) == placeholder_visible(
            props.placeholder@,
            state@,
            props.disabled,
        ),
        node.placeholder is Some ==> node.placeholder->Some_0@ == props.placeholder@,
        props.disabled ==> node.groups@.len() == 0,
        !props.disabled ==> node.groups@.len() == props.children@.len(),
        forall|i: int|
            0 <= i < node.groups@.len() ==> group_rendered(
                #[trigger] node.groups@[i],
                props.children@[i],
                first_selected(state@),
            ),
{
    let mut chips: Vec<Chip> = Vec::new();
    if props.multiple {
        let n = state.len();
        let mut i: usize = 0;
        while i < n
            invariant
                n == state@.len(),
                i <= n,
                chips@.len() == i,
                forall|j: int|
                    0 <= j < i ==> chip_rendered(#[trigger] chips@[j], state@[j], *props),
            decreases n - i,
        {
            let value = state.get(i);
            chips.push(
                Chip {
                    text: value.clone(),
                    remove_value: value.clone(),
                    class: props.label_class.clone(),
                    style: props.label_style.clone(),
                    close_class: props.close_class.clone(),
                    close_style: props.close_style.clone(),
                },
            );
            i += 1;
        }
    }
    let show_placeholder = (!props.placeholder.as_str().is_empty() && state.len() == 0)
        || props.disabled;
    let placeholder = if show_placeholder {
        Some(props.placeholder.clone())
    } else {
        None
    };
    let mut groups: Vec<GroupNode> = Vec::new();
    if !props.disabled {
        let selected = state.first_or_empty();
        let n = props.children.len();
        let mut i: usize = 0;
        while i < n
            invariant
                n == props.children@.len(),
                i <= n,
                groups@.len() == i,
                selected@ == first_selected(state@),
                forall|j: int|
                    0 <= j < i ==> group_rendered(
                        #[trigger] groups@[j],
                        props.children@[j],
                        first_selected(state@),
                    ),
            decreases n - i,
        {
            let child = &props.children[i];
            groups.push(
                GroupNode {
                    labeled: child.group,
                    label: child.label.clone(),
                    class: child.class.clone(),
                    style: child.style.clone(),
                    options: render_options(&child.children, &selected),
                },
            );
            i += 1;
        }
    }
    SelectNode {
        class: props.class.clone(),
        style: props.style.clone(),
        chip_list: props.multiple,
        labels_class: props.labels_class.clone(),
        labels_style: props.labels_style.clone(),
        chips,
        id: props.id.clone(),
        name: props.name.clone(),
        multiple: props.multiple,
        select_class: props.select_class.clone(),
        select_style: props.select_style.clone(),
        disabled: props.disabled,
        size: props.size,
        required: props.required,
        form: props.form.clone(),
        autocomplete: props.autocomplete.clone(),
        autofocus: props.autofocus,
        placeholder,
        groups,
    }
}

} // verus!
