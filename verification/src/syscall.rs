//! System call numbers and the privilege each call requires.
//!
//! Numbers `0x00`–`0x3F` are open to the user ring, `0x40`–`0x7F` need
//! the supervisor ring, and `0x80`–`0xFF` the kernel ring. A number the
//! table does not define decodes to `Unknown`, which requires the
//! kernel ring.

use vstd::prelude::*;

use crate::registers::{ring, PrivilegeLevel};

verus! {

/// The system calls the machine knows, by number group: console input
/// and output, timing, user-space memory management and arithmetic
/// helpers in the user group; entity, world, player and quest calls in
/// the supervisor group; hardware, process, reality-engine and physics
/// calls, and the debug group, in the kernel group.
#[derive(Debug, Clone, Copy, PartialEq, Eq, Structural)]
pub enum Syscall {
    Exit,
    PrintChar,
    PrintStr,
    PrintHex,
    ReadChar,
    ReadLine,
    ClearScreen,
    SetColor,
    GetTime,
    Sleep,
    GetRealTime,
    SetTimer,
    AllocMem,
    FreeMem,
    GetMemInfo,
    Random,
    Sqrt,
    Multiply32,
    Divide32,
    CreateEntity,
    DestroyEntity,
    GetEntity,
    SetEntity,
    MoveEntity,
    GetTile,
    SetTile,
    GetRegion,
    SetRegion,
    SpawnParticle,
    PlaySound,
    GetPlayerPos,
    GetPlayerStat,
    SetPlayerStat,
    AddInventory,
    RemoveInventory,
    ShowDialog,
    SetQuestFlag,
    GetQuestFlag,
    TriggerEvent,
    SaveGame,
    LoadGame,
    ReadPort,
    WritePort,
    MapMemory,
    UnmapMemory,
    EnableInterrupt,
    DisableInterrupt,
    CreateProcess,
    KillProcess,
    SwitchProcess,
    GetProcessInfo,
    SetPriority,
    RealityWrite,
    RealityRead,
    RealityCompile,
    RealityExecute,
    RealityRevert,
    RealitySave,
    RealityLoad,
    RealityQuery,
    SetGravity,
    SetTimeFlow,
    CreatePortal,
    ModifyMatter,
    Debug,
    Breakpoint,
    DumpState,
    Inspect,
    Unknown,
}

/// The syscall named by a call number.
pub open spec fn spec_syscall_from_u16(value: u16) -> Syscall {
    if value == 0x00 {
        Syscall::Exit
    } else if value == 0x01 {
        Syscall::PrintChar
    } else if value == 0x02 {
        Syscall::PrintStr
    } else if value == 0x03 {
        Syscall::PrintHex
    } else if value == 0x04 {
        Syscall::ReadChar
    } else if value == 0x05 {
        Syscall::ReadLine
    } else if value == 0x06 {
        Syscall::ClearScreen
    } else if value == 0x07 {
        Syscall::SetColor
    } else if value == 0x10 {
        Syscall::GetTime
    } else if value == 0x11 {
        Syscall::Sleep
    } else if value == 0x12 {
        Syscall::GetRealTime
    } else if value == 0x13 {
        Syscall::SetTimer
    } else if value == 0x20 {
        Syscall::AllocMem
    } else if value == 0x21 {
        Syscall::FreeMem
    } else if value == 0x22 {
        Syscall::GetMemInfo
    } else if value == 0x30 {
        Syscall::Random
    } else if value == 0x31 {
        Syscall::Sqrt
    } else if value == 0x32 {
        Syscall::Multiply32
    } else if value == 0x33 {
        Syscall::Divide32
    } else if value == 0x40 {
        Syscall::CreateEntity
    } else if value == 0x41 {
        Syscall::DestroyEntity
    } else if value == 0x42 {
        Syscall::GetEntity
    } else if value == 0x43 {
        Syscall::SetEntity
    } else if value == 0x44 {
        Syscall::MoveEntity
    } else if value == 0x50 {
        Syscall::GetTile
    } else if value == 0x51 {
        Syscall::SetTile
    } else if value == 0x52 {
        Syscall::GetRegion
    } else if value == 0x53 {
        Syscall::SetRegion
    } else if value == 0x54 {
        Syscall::SpawnParticle
    } else if value == 0x55 {
        Syscall::PlaySound
    } else if value == 0x60 {
        Syscall::GetPlayerPos
    } else if value == 0x61 {
        Syscall::GetPlayerStat
    } else if value == 0x62 {
        Syscall::SetPlayerStat
    } else if value == 0x63 {
        Syscall::AddInventory
    } else if value == 0x64 {
        Syscall::RemoveInventory
    } else if value == 0x65 {
        Syscall::ShowDialog
    } else if value == 0x70 {
        Syscall::SetQuestFlag
    } else if value == 0x71 {
        Syscall::GetQuestFlag
    } else if value == 0x72 {
        Syscall::TriggerEvent
    } else if value == 0x73 {
        Syscall::SaveGame
    } else if value == 0x74 {
        Syscall::LoadGame
    } else if value == 0x80 {
        Syscall::ReadPort
    } else if value == 0x81 {
        Syscall::WritePort
    } else if value == 0x82 {
        Syscall::MapMemory
    } else if value == 0x83 {
        Syscall::UnmapMemory
    } else if value == 0x84 {
        Syscall::EnableInterrupt
    } else if value == 0x85 {
        Syscall::DisableInterrupt
    } else if value == 0x90 {
        Syscall::CreateProcess
    } else if value == 0x91 {
        Syscall::KillProcess
    } else if value == 0x92 {
        Syscall::SwitchProcess
    } else if value == 0x93 {
        Syscall::GetProcessInfo
    } else if value == 0x94 {
        Syscall::SetPriority
    } else if value == 0xA0 {
        Syscall::RealityWrite
    } else if value == 0xA1 {
        Syscall::RealityRead
    } else if value == 0xA2 {
        Syscall::RealityCompile
    } else if value == 0xA3 {
        Syscall::RealityExecute
    } else if value == 0xA4 {
        Syscall::RealityRevert
    } else if value == 0xA5 {
        Syscall::RealitySave
    } else if value == 0xA6 {
        Syscall::RealityLoad
    } else if value == 0xA7 {
        Syscall::RealityQuery
    } else if value == 0xB0 {
        Syscall::SetGravity
    } else if value == 0xB1 {
        Syscall::SetTimeFlow
    } else if value == 0xB2 {
        Syscall::CreatePortal
    } else if value == 0xB3 {
        Syscall::ModifyMatter
    } else if value == 0xF0 {
        Syscall::Debug
    } else if value == 0xF1 {
        Syscall::Breakpoint
    } else if value == 0xF2 {
        Syscall::DumpState
    } else if value == 0xF3 {
        Syscall::Inspect
    } else {
        Syscall::Unknown
    }
}

/// The ring a syscall requires: the user ring for the console, timing,
/// user-memory and arithmetic groups; the supervisor ring for the game
/// groups; the kernel ring for everything else, `Unknown` included.
pub open spec fn spec_required_privilege(s: Syscall) -> PrivilegeLevel {
    match s {
        Syscall::Exit
        | Syscall::PrintChar
        | Syscall::PrintStr
        | Syscall::PrintHex
        | Syscall::ReadChar
        | Syscall::ReadLine
        | Syscall::ClearScreen
        | Syscall::SetColor
        | Syscall::GetTime
        | Syscall::Sleep
        | Syscall::GetRealTime
        | Syscall::SetTimer
        | Syscall::AllocMem
        | Syscall::FreeMem
        | Syscall::GetMemInfo
        | Syscall::Random
        | Syscall::Sqrt
        | Syscall::Multiply32
        | Syscall::Divide32 => PrivilegeLevel::User,
        Syscall::CreateEntity
        | Syscall::DestroyEntity
        | Syscall::GetEntity
        | Syscall::SetEntity
        | Syscall::MoveEntity
        | Syscall::GetTile
        | Syscall::SetTile
        | Syscall::GetRegion
        | Syscall::SetRegion
        | Syscall::SpawnParticle
        | Syscall::PlaySound
        | Syscall::GetPlayerPos
        | Syscall::GetPlayerStat
        | Syscall::SetPlayerStat
        | Syscall::AddInventory
        | Syscall::RemoveInventory
        | Syscall::ShowDialog
        | Syscall::SetQuestFlag
        | Syscall::GetQuestFlag
        | Syscall::TriggerEvent
        | Syscall::SaveGame
        | Syscall::LoadGame => PrivilegeLevel::Supervisor,
        _ => PrivilegeLevel::Kernel,
    }
}

impl Syscall {
    /// Looks a call number up in the syscall table.
    pub fn from_u16(value: u16) -> (r: Syscall)
        ensures
            r == spec_syscall_from_u16(value),
    {
        match value {
            0x00 => Syscall::Exit,
            0x01 => Syscall::PrintChar,
            0x02 => Syscall::PrintStr,
            0x03 => Syscall::PrintHex,
            0x04 => Syscall::ReadChar,
            0x05 => Syscall::ReadLine,
            0x06 => Syscall::ClearScreen,
            0x07 => Syscall::SetColor,
            0x10 => Syscall::GetTime,
            0x11 => Syscall::Sleep,
            0x12 => Syscall::GetRealTime,
            0x13 => Syscall::SetTimer,
            0x20 => Syscall::AllocMem,
            0x21 => Syscall::FreeMem,
            0x22 => Syscall::GetMemInfo,
            0x30 => Syscall::Random,
            0x31 => Syscall::Sqrt,
            0x32 => Syscall::Multiply32,
            0x33 => Syscall::Divide32,
            0x40 => Syscall::CreateEntity,
            0x41 => Syscall::DestroyEntity,
            0x42 => Syscall::GetEntity,
            0x43 => Syscall::SetEntity,
            0x44 => Syscall::MoveEntity,
            0x50 => Syscall::GetTile,
            0x51 => Syscall::SetTile,
            0x52 => Syscall::GetRegion,
            0x53 => Syscall::SetRegion,
            0x54 => Syscall::SpawnParticle,
            0x55 => Syscall::PlaySound,
            0x60 => Syscall::GetPlayerPos,
            0x61 => Syscall::GetPlayerStat,
            0x62 => Syscall::SetPlayerStat,
            0x63 => Syscall::AddInventory,
            0x64 => Syscall::RemoveInventory,
            0x65 => Syscall::ShowDialog,
            0x70 => Syscall::SetQuestFlag,
            0x71 => Syscall::GetQuestFlag,
            0x72 => Syscall::TriggerEvent,
            0x73 => Syscall::SaveGame,
            0x74 => Syscall::LoadGame,
            0x80 => Syscall::ReadPort,
            0x81 => Syscall::WritePort,
            0x82 => Syscall::MapMemory,
            0x83 => Syscall::UnmapMemory,
            0x84 => Syscall::EnableInterrupt,
            0x85 => Syscall::DisableInterrupt,
            0x90 => Syscall::CreateProcess,
            0x91 => Syscall::KillProcess,
            0x92 => Syscall::SwitchProcess,
            0x93 => Syscall::GetProcessInfo,
            0x94 => Syscall::SetPriority,
            0xA0 => Syscall::RealityWrite,
            0xA1 => Syscall::RealityRead,
            0xA2 => Syscall::RealityCompile,
            0xA3 => Syscall::RealityExecute,
            0xA4 => Syscall::RealityRevert,
            0xA5 => Syscall::RealitySave,
            0xA6 => Syscall::RealityLoad,
            0xA7 => Syscall::RealityQuery,
            0xB0 => Syscall::SetGravity,
            0xB1 => Syscall::SetTimeFlow,
            0xB2 => Syscall::CreatePortal,
            0xB3 => Syscall::ModifyMatter,
            0xF0 => Syscall::Debug,
            0xF1 => Syscall::Breakpoint,
            0xF2 => Syscall::DumpState,
            0xF3 => Syscall::Inspect,
            _ => Syscall::Unknown,
        }
    }

    /// The ring this syscall requires.
    pub fn required_privilege(&self) -> (r: PrivilegeLevel)
        ensures
            r == spec_required_privilege(*self),
    {
        match self {
            Syscall::Exit
            | Syscall::PrintChar
            | Syscall::PrintStr
            | Syscall::PrintHex
            | Syscall::ReadChar
            | Syscall::ReadLine
            | Syscall::ClearScreen
            | Syscall::SetColor
            | Syscall::GetTime
            | Syscall::Sleep
            | Syscall::GetRealTime
            | Syscall::SetTimer
            | Syscall::AllocMem
            | Syscall::FreeMem
            | Syscall::GetMemInfo
            | Syscall::Random
            | Syscall::Sqrt
            | Syscall::Multiply32
            | Syscall::Divide32 => PrivilegeLevel::User,
            Syscall::CreateEntity
            | Syscall::DestroyEntity
            | Syscall::GetEntity
            | Syscall::SetEntity
            | Syscall::MoveEntity
            | Syscall::GetTile
            | Syscall::SetTile
            | Syscall::GetRegion
            | Syscall::SetRegion
            | Syscall::SpawnParticle
            | Syscall::PlaySound
            | Syscall::GetPlayerPos
            | Syscall::GetPlayerStat
            | Syscall::SetPlayerStat
            | Syscall::AddInventory
            | Syscall::RemoveInventory
            | Syscall::ShowDialog
            | Syscall::SetQuestFlag
            | Syscall::GetQuestFlag
            | Syscall::TriggerEvent
            | Syscall::SaveGame
            | Syscall::LoadGame => PrivilegeLevel::Supervisor,
            _ => PrivilegeLevel::Kernel,
        }
    }
}

/// Every call number the table defines requires exactly the ring its
/// number group names: numbers below `0x40` the user ring, numbers
/// below `0x80` the supervisor ring, and numbers from `0x80` up the
/// kernel ring.
pub proof fn lemma_syscall_privilege_groups(n: u16)
    requires
        spec_syscall_from_u16(n) != Syscall::Unknown,
    ensures
        ring(spec_required_privilege(spec_syscall_from_u16(n))) == if n < 0x40 {
            2int
        } else if n < 0x80 {
            1int
        } else {
            0int
        },
{
}

} // verus!
