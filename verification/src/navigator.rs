use vstd::prelude::*;

verus! {

/// What UI screen the app should be displaying.
#[derive(Copy, Clone, Debug, PartialEq, Eq, Structural)]
pub enum ActiveScreen {
    /// View an existing media library.
    LibraryView,
    /// The library being requested is still being prepared; show the user a
    /// loading screen for now.
    Loading,
    /// The user has no libraries available; onboard them with the setup
    /// screen.
    Setup,
    /// Select an existing media library (or add a new one).
    LibrarySelect,
    /// View the app settings.
    Settings,
}

impl Default for ActiveScreen {
    /// The screen shown when nothing else has been chosen or persisted.
    fn default() -> (r: ActiveScreen)
        ensures
            r == ActiveScreen::LibraryView,
    {
        ActiveScreen::LibraryView
    }
}

/// The stable numeric identifier a screen is persisted under.
pub open spec fn screen_id_spec(screen: ActiveScreen) -> u32 {
    match screen {
        ActiveScreen::LibraryView => 0u32,
        ActiveScreen::Loading => 1u32,
        ActiveScreen::Setup => 2u32,
        ActiveScreen::LibrarySelect => 3u32,
        ActiveScreen::Settings => 4u32,
    }
}

impl ActiveScreen {
    /// The stable numeric identifier this screen is persisted under.
    pub fn screen_id(&self) -> (r: u32)
        ensures
            r == screen_id_spec(*self),
    {
        match self {
            ActiveScreen::LibraryView => 0,
            ActiveScreen::Loading => 1,
            ActiveScreen::Setup => 2,
            ActiveScreen::LibrarySelect => 3,
            ActiveScreen::Settings => 4,
        }
    }

    /// The screen persisted under the given identifier, or None for an
    /// identifier that names no screen.
    pub fn from_id(id: u32) -> (r: Option<ActiveScreen>)
        ensures
            r matches Some(screen) ==> screen_id_spec(screen) == id,
            id <= 4 ==> r is Some,
            id > 4 ==> r is None,
    {
        match id {
            0 => Some(ActiveScreen::LibraryView),
            1 => Some(ActiveScreen::Loading),
            2 => Some(ActiveScreen::Setup),
            3 => Some(ActiveScreen::LibrarySelect),
            4 => Some(ActiveScreen::Settings),
            _ => None,
        }
    }
}

/// Returns the currently active screen for a stored identifier: the screen
/// it names, or the default when it names none.
pub fn active(current_id: u32) -> (r: ActiveScreen)
    ensures
        current_id <= 4 ==> screen_id_spec(r) == current_id,
        current_id > 4 ==> r == ActiveScreen::LibraryView,
{
    match ActiveScreen::from_id(current_id) {
        Some(screen) => screen,
        None => ActiveScreen::LibraryView,
    }
}

/// The four little-endian bytes a screen identifier is persisted as.
pub open spec fn screen_bytes_spec(screen: ActiveScreen) -> Seq<u8> {
    seq![screen_id_spec(screen) as u8, 0u8, 0u8, 0u8]
}

/// Encode a screen as the persisted key-value payload: its identifier in
/// four little-endian bytes.
pub fn screen_to_bytes(screen: ActiveScreen) -> (r: Vec<u8>)
    ensures
        r@ == screen_bytes_spec(screen),
{
    let id = screen.screen_id();
    let mut bytes: Vec<u8> = Vec::new();
    bytes.push(id as u8);
    bytes.push(0);
    bytes.push(0);
    bytes.push(0);
    proof {
        assert(bytes@ =~= screen_bytes_spec(screen));
    }
    bytes
}

/// The screen a persisted key-value payload names: the little-endian
/// identifier of a known screen, or nothing for a missing or malformed
/// payload or an unknown identifier.
pub open spec fn screen_from_bytes_spec(bytes: Option<Seq<u8>>) -> Option<ActiveScreen> {
    match bytes {
        Some(b) => if b.len() == 4 {
            let id = b[0] + b[1] * 0x100 + b[2] * 0x10000 + b[3] * 0x1000000;
            if id <= 4 {
                Some(ActiveScreen::from_id_spec(id as u32))
            } else {
                None
            }
        } else {
            None
        },
        None => None,
    }
}

impl ActiveScreen {
    /// The screen a small identifier names.
    pub open spec fn from_id_spec(id: u32) -> ActiveScreen
        recommends
            id <= 4,
    {
        if id == 0 {
            ActiveScreen::LibraryView
        } else if id == 1 {
            ActiveScreen::Loading
        } else if id == 2 {
            ActiveScreen::Setup
        } else if id == 3 {
            ActiveScreen::LibrarySelect
        } else {
            ActiveScreen::Settings
        }
    }
}

/// Attempt to interpret a persisted key-value payload as the last active
/// screen, falling back to the default screen when there is none, it is
/// malformed, or it names no known screen.
pub fn screen_from_state(bytes: Option<Vec<u8>>) -> (r: ActiveScreen)
    ensures
        match screen_from_bytes_spec(
            match bytes {
                Some(b) => Some(b@),
                None => None,
            },
        ) {
            Some(screen) => r == screen,
            None => r == ActiveScreen::LibraryView,
        },
{
    let b = match bytes {
        Some(b) => b,
        None => {
            return ActiveScreen::LibraryView;
        },
    };
    if b.len() != 4 {
        return ActiveScreen::LibraryView;
    }
    let id: u32 = (b[0] as u32) + (b[1] as u32) * 0x100 + (b[2] as u32) * 0x10000 + (b[3] as u32)
        * 0x1000000;
    match ActiveScreen::from_id(id) {
        Some(screen) => screen,
        None => ActiveScreen::LibraryView,
    }
}

/// Law: persisting a screen and interpreting it back yields that screen.
pub proof fn lemma_screen_round_trip(screen: ActiveScreen)
    ensures
        screen_from_bytes_spec(Some(screen_bytes_spec(screen))) == Some(screen),
{
}

} // verus!
