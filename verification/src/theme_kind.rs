//! The places in the launcher's views that a theme styles, widget by widget.

use vstd::prelude::*;

verus! {

#[derive(Clone, Copy, Debug, PartialEq, Eq, Structural)]
pub enum ThemeKindRow {
    ActionShortcut,
    FormInput,
    ListSectionTitle,
    GridSectionTitle,
}

#[derive(Clone, Copy, Debug, PartialEq, Eq, Structural)]
pub enum ThemeKindButton {
    Action,
    GridItem,
    ListItem,
    MainListItem,
    MetadataLink,
    RootBottomPanelActionButton,
    RootTopPanelBackButton,
}

#[derive(Clone, Copy, Debug, PartialEq, Eq, Structural)]
pub enum ThemeKindContainer {
    ActionPanel,
    ActionShortcutModifier,
    /// Every modifier of a shortcut but the last.
    ActionShortcutModifiersInit,
    ContentCodeBlock,
    ContentCodeBlockText,
    ContentHorizontalBreak,
    ContentImage,
    ContentParagraph,
    DetailContent,
    DetailMetadata,
    EmptyViewImage,
    FormInputLabel,
    Inline,
    ListItemSubtitle,
    ListItemTitle,
    Main,
    MainList,
    MainListItemIcon,
    MainListItemSubText,
    MainListItemText,
    MainSearchBar,
    MetadataItemValue,
    MetadataSeparator,
    MetadataTagItem,
    PluginErrorView,
    PluginErrorViewDescription,
    PluginErrorViewTitle,
    PreferenceRequiredView,
    PreferenceRequiredViewDescription,
    Root,
    RootBottomPanel,
    RootContent,
    RootTopPanel,
}

#[derive(Clone, Copy, Debug, PartialEq, Eq, Structural)]
pub enum ThemeKindImage {
    EmptyViewImage,
    MainListItemIcon,
}

#[derive(Clone, Copy, Debug, PartialEq, Eq, Structural)]
pub enum ThemeKindGrid {
    Grid,
}

#[derive(Clone, Copy, Debug, PartialEq, Eq, Structural)]
pub enum ThemeKindSpace {
    MainListItemIcon,
}

#[derive(Clone, Copy, Debug, PartialEq, Eq, Structural)]
pub enum ThemeKindText {
    Subtext,
}

#[derive(Clone, Copy, Debug, PartialEq, Eq, Structural)]
pub enum ThemeKindTooltip {
    Tooltip,
}

#[derive(Clone, Copy, Debug, PartialEq, Eq, Structural)]
pub enum ThemeKindTextInput {
    FormInput,
}

} // verus!
