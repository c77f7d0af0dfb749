//! Module slots and module definitions.

use subinterp::config::{BuildConfig, PoolMode};
use subinterp::impl_::pymodule::{
    secondary_slots, zeroed_slot, AddClassToModule, AddTypeToModule, Addition, ModuleCall,
    ModuleDef, ModuleSlot, ModuleStep, PrimaryModuleSlots, PyAddToModule, PyFunctionDef,
    PyModuleSlotsBuilder, SlotForm, SlotId, SlotValue, SECOND_INITIALIZATION,
};
use subinterp::impl_::version::supports_multiple_interpreters;
use subinterp::internal::state::AttachCount;
use subinterp::sync::per_interpreter::{Registries, RegistryCache};

const NAME: usize = 0x4a4e;
const DOC: usize = 0xd0c;
const EXEC: usize = 0xe8ec;

fn config(py_minor: u32) -> BuildConfig {
    BuildConfig {
        py_minor,
        limited_api: false,
        gil_disabled: false,
        windows: false,
        alternative_impl: false,
        pool: PoolMode::Enabled,
    }
}

fn abi3(py_minor: u32) -> BuildConfig {
    BuildConfig { limited_api: true, ..config(py_minor) }
}

fn slot(id: SlotId, form: SlotForm, value: SlotValue) -> ModuleSlot {
    ModuleSlot { id, form, value }
}

/// The slots of a definition that was just initialized by this version.
fn initialized(def: &mut ModuleDef, version: &[u8]) -> Vec<ModuleSlot> {
    def.init_multi_phase(version).m_slots.clone()
}

fn definition(config: BuildConfig) -> ModuleDef {
    let slots = PyModuleSlotsBuilder::new(config)
        .with_mod_exec(EXEC)
        .with_per_interpreter_gil()
        .with_gil_used(false)
        .with_abi_info()
        .with_name(NAME)
        .with_doc(DOC)
        .build();
    let secondary = secondary_slots(&config, &slots);
    ModuleDef::new(config, NAME, DOC, slots, secondary)
}

#[test]
fn module_def_new() {
    for build in [config(9), config(12), config(14), abi3(10)] {
        let slots = PyModuleSlotsBuilder::new(build).build();
        let secondary = secondary_slots(&build, &slots);
        let mut module_def = ModuleDef::new(build, NAME, DOC, slots, secondary);
        let def = module_def.init_multi_phase(b"3.14.0");
        assert_eq!(def.m_name, NAME);
        assert_eq!(def.m_doc, DOC);
        assert_eq!(def.m_size, 0);
        let expected: Vec<ModuleSlot> =
            (0..build.max_slot_count() + 1).map(|_| zeroed_slot()).collect();
        assert_eq!(def.m_slots, expected);
    }
    // from Python 3.15 on the definition points at the primary slots
    let build = config(15);
    let slots = PyModuleSlotsBuilder::new(build).build();
    let secondary = secondary_slots(&build, &slots);
    let mut module_def = ModuleDef::new(build, NAME, DOC, slots, secondary);
    assert_eq!(
        module_def.init_multi_phase(b"3.15.0").m_slots,
        vec![slot(SlotId::Subslots, SlotForm::Plain, SlotValue::PrimarySlots), zeroed_slot()]
    );
    assert_eq!(module_def.get_slots().len(), 7);
}

#[test]
fn test_build_maximal_slots() {
    for build in [
        config(9),
        config(11),
        config(12),
        config(13),
        config(14),
        config(15),
        abi3(9),
        abi3(11),
        abi3(12),
        abi3(15),
        BuildConfig { gil_disabled: true, ..abi3(15) },
    ] {
        let builder = PyModuleSlotsBuilder::new(build)
            .with_mod_exec(EXEC)
            .with_name(NAME)
            .with_doc(DOC)
            .with_per_interpreter_gil()
            .with_gil_used(false)
            .with_abi_info();
        // there is no room for another
        assert!(builder.is_full());
        let max = build.max_slot_count();
        let array = match builder.build() {
            PrimaryModuleSlots::Slots(slots) => {
                assert!(build.py_minor >= 15);
                let secondary = subinterp::impl_::pymodule::SecondaryModuleSlots::Absent;
                if build.gil_disabled {
                    ModuleDef::new(build, NAME, DOC, PrimaryModuleSlots::Slots(slots), secondary)
                        .get_slots()
                        .clone()
                } else {
                    let primary = PrimaryModuleSlots::Slots(slots);
                    let secondary = secondary_slots(&build, &primary);
                    ModuleDef::new(build, NAME, DOC, primary, secondary).get_slots().clone()
                }
            }
            PrimaryModuleSlots::DefSlots(slots) => {
                assert!(build.py_minor < 15);
                let primary = PrimaryModuleSlots::DefSlots(slots);
                let secondary = secondary_slots(&build, &primary);
                let mut def = ModuleDef::new(build, NAME, DOC, primary, secondary);
                initialized(&mut def, b"3.12.0")
            }
        };
        assert_eq!(array.len(), max + 1);
        assert_eq!(array[max], zeroed_slot());
        assert_ne!(array[max - 1], zeroed_slot());
    }
}

#[test]
fn the_room_of_a_build() {
    assert_eq!(config(11).max_slot_count(), 1);
    assert_eq!(abi3(11).max_slot_count(), 2);
    assert_eq!(config(12).max_slot_count(), 2);
    assert_eq!(config(13).max_slot_count(), 3);
    assert_eq!(config(14).max_slot_count(), 3);
    assert_eq!(config(15).max_slot_count(), 6);
    assert!(abi3(11).slot_is_resolved_at_run_time());
    assert!(!abi3(12).slot_is_resolved_at_run_time());
    assert!(!config(11).slot_is_resolved_at_run_time());
}

#[test]
fn slots_by_build() {
    // Python 3.14: plain slots, no name, doc or ABI information
    assert_eq!(
        initialized(&mut definition(config(14)), b"3.14.0"),
        vec![
            slot(SlotId::Exec, SlotForm::Plain, SlotValue::Address(EXEC)),
            slot(
                SlotId::MultipleInterpreters,
                SlotForm::Plain,
                SlotValue::PerInterpreterGilSupported
            ),
            slot(SlotId::Gil, SlotForm::Plain, SlotValue::GilNotUsed),
            zeroed_slot(),
        ]
    );
    // Python 3.11 knows none but the exec slot
    assert_eq!(
        initialized(&mut definition(config(11)), b"3.11.0"),
        vec![slot(SlotId::Exec, SlotForm::Plain, SlotValue::Address(EXEC)), zeroed_slot()]
    );
    // Python 3.15: all of them, in the order in which they were declared
    assert_eq!(
        *definition(config(15)).get_slots(),
        vec![
            slot(SlotId::Exec, SlotForm::Func, SlotValue::Address(EXEC)),
            slot(
                SlotId::MultipleInterpreters,
                SlotForm::Data,
                SlotValue::PerInterpreterGilSupported
            ),
            slot(SlotId::Gil, SlotForm::Data, SlotValue::GilNotUsed),
            slot(SlotId::Abi, SlotForm::StaticData, SlotValue::AbiInfo),
            slot(SlotId::Name, SlotForm::StaticData, SlotValue::Address(NAME)),
            slot(SlotId::Doc, SlotForm::StaticData, SlotValue::Address(DOC)),
            zeroed_slot(),
        ]
    );
}

#[test]
fn the_gil_slot_says_whether_it_is_used() {
    let build = config(13);
    for used in [true, false] {
        let slots = PyModuleSlotsBuilder::new(build).with_gil_used(used).build();
        let secondary = secondary_slots(&build, &slots);
        let mut def = ModuleDef::new(build, NAME, DOC, slots, secondary);
        let value = if used { SlotValue::GilUsed } else { SlotValue::GilNotUsed };
        assert_eq!(initialized(&mut def, b"3.13.1")[0], slot(SlotId::Gil, SlotForm::Plain, value));
    }
}

#[test]
fn abi3_resolves_the_slot_by_the_running_version() {
    let supported = slot(
        SlotId::MultipleInterpreters,
        SlotForm::Plain,
        SlotValue::PerInterpreterGilSupported,
    );
    let run = slot(SlotId::Exec, SlotForm::Plain, SlotValue::Address(EXEC));
    for version in ["3.12.0", "3.14.6 (main, ...)", "4.0.0", "3.12"] {
        let slots = initialized(&mut definition(abi3(10)), version.as_bytes());
        assert_eq!(slots, vec![run, supported, zeroed_slot()]);
    }
    for version in ["3.10.4", "3.11.9 (main)", "3.9.0+", "2.99.0"] {
        let slots = initialized(&mut definition(abi3(10)), version.as_bytes());
        assert_eq!(slots, vec![run, zeroed_slot(), zeroed_slot()]);
    }
}

#[test]
fn a_placeholder_before_other_slots_is_taken_out() {
    let build = abi3(10);
    let slots =
        PyModuleSlotsBuilder::new(build).with_per_interpreter_gil().with_mod_exec(EXEC).build();
    let secondary = secondary_slots(&build, &slots);
    let mut def = ModuleDef::new(build, NAME, DOC, slots, secondary);
    assert_eq!(
        initialized(&mut def, b"3.10.0"),
        vec![
            slot(SlotId::Exec, SlotForm::Plain, SlotValue::Address(EXEC)),
            zeroed_slot(),
            zeroed_slot(),
        ]
    );
}

#[test]
fn only_the_first_patch_counts() {
    let mut def = definition(abi3(10));
    let first = initialized(&mut def, b"3.10.0");
    assert_eq!(initialized(&mut def, b"3.14.0"), first);
    assert!(def.make_module(b"3.14.0").is_ok());
    assert_eq!(initialized(&mut def, b"3.14.0"), first);
}

#[test]
fn versions() {
    assert!(supports_multiple_interpreters(b"3.12.0"));
    assert!(supports_multiple_interpreters(b"3.100"));
    assert!(supports_multiple_interpreters(b"10.0"));
    assert!(supports_multiple_interpreters(b"99999999999999999999.0"));
    assert!(supports_multiple_interpreters(b"3.99999999999999999999"));
    assert!(!supports_multiple_interpreters(b"3.11.12"));
    assert!(!supports_multiple_interpreters(b"3"));
    assert!(!supports_multiple_interpreters(b""));
    assert!(!supports_multiple_interpreters(b"3 .12"));
    assert!(!supports_multiple_interpreters(b"3.1 2"));
    assert!(!supports_multiple_interpreters(b"v3.12"));
}

/// Makes a module in an interpreter. `create`, `run` and so on are what CPython answers.
fn make(
    def: &mut ModuleDef,
    registries: &mut Registries<usize>,
    interp: usize,
    create: usize,
    run: usize,
) -> (Vec<ModuleCall>, ModuleStep) {
    let mut cache = RegistryCache::new();
    let mut step = match def.make_module(b"3.14.0") {
        Ok(step) => step,
        Err(message) => panic!("{}", message),
    };
    let mut calls = Vec::new();
    loop {
        calls.push(step.at);
        let answer = match step.at {
            ModuleCall::ImportNamespace => 0x5a,
            ModuleCall::MakeSpec => 0x59ec,
            ModuleCall::FindCached => def.cached_module(registries, &mut cache, interp),
            ModuleCall::Create => create,
            ModuleCall::Exec => run,
            ModuleCall::Store => def.store_module(registries, interp, step.module),
            ModuleCall::Done | ModuleCall::Failed => return (calls, step),
            _ => 0,
        };
        step = step.next(answer);
    }
}

#[test]
fn module_init() {
    let mut def = definition(config(14));
    let mut registries: Registries<usize> = Registries::new();
    registries.create_registry(0x1000);
    let (calls, end) = make(&mut def, &mut registries, 0x1000, 0x111, 1);
    assert_eq!(
        calls,
        vec![
            ModuleCall::ImportNamespace,
            ModuleCall::MakeSpec,
            ModuleCall::FindCached,
            ModuleCall::Create,
            ModuleCall::Exec,
            ModuleCall::Store,
            ModuleCall::CloneRef,
            ModuleCall::ReleaseSpec,
            ModuleCall::Done,
        ]
    );
    assert_eq!(end.cached, 0x111);
    // a second time gives the module that is kept
    let (calls, end) = make(&mut def, &mut registries, 0x1000, 0x222, 1);
    assert!(!calls.contains(&ModuleCall::Create));
    assert_eq!(end.cached, 0x111);
}

#[test]
fn the_module_object_is_per_interpreter() {
    let mut def = definition(config(14));
    let mut registries: Registries<usize> = Registries::new();
    registries.create_registry(0x1000);
    registries.create_registry(0x2000);
    let main_module = make(&mut def, &mut registries, 0x1000, 0x111, 1).1.cached;
    let sub_module = make(&mut def, &mut registries, 0x2000, 0x222, 1).1.cached;
    assert_ne!(
        sub_module, main_module,
        "a sub-interpreter got the main interpreter's module object"
    );
    assert_eq!(make(&mut def, &mut registries, 0x1000, 0x333, 1).1.cached, 0x111);
}

#[test]
fn a_module_that_fails_is_not_kept() {
    let mut def = definition(config(14));
    let mut registries: Registries<usize> = Registries::new();
    let mut cache = RegistryCache::new();
    registries.create_registry(0x1000);
    let (calls, end) = make(&mut def, &mut registries, 0x1000, 0, 1);
    assert_eq!(end.at, ModuleCall::Failed);
    assert!(!calls.contains(&ModuleCall::ReleaseModule));
    let (calls, end) = make(&mut def, &mut registries, 0x1000, 0x111, 0);
    assert_eq!(end.at, ModuleCall::Failed);
    assert!(calls.contains(&ModuleCall::ReleaseModule));
    assert!(calls.contains(&ModuleCall::ReleaseSpec));
    assert_eq!(def.cached_module(&mut registries, &mut cache, 0x1000), 0);
    // without a namespace or a spec nothing is made
    assert_eq!(first_step().next(0).at, ModuleCall::Failed);
    assert_eq!(first_step().next(0x5a).next(0).at, ModuleCall::Failed);
}

fn first_step() -> ModuleStep {
    definition(config(14)).make_module(b"3.14.0").unwrap()
}

#[test]
fn a_lost_race_releases_the_module() {
    let step = first_step().next(0x5a).next(0x59ec).next(0).next(0x222).next(1);
    assert_eq!(step.at, ModuleCall::Store);
    // another thread stored its own first
    let step = step.next(0x111);
    assert_eq!(step.at, ModuleCall::ReleaseModule);
    assert_eq!(step.module, 0x222);
    let step = step.next(0);
    assert_eq!(step.at, ModuleCall::CloneRef);
    assert_eq!(step.cached, 0x111);
}

#[test]
fn an_interpreter_without_a_registry_gets_its_module() {
    let mut def = definition(config(14));
    let mut registries: Registries<usize> = Registries::new();
    let (_, end) = make(&mut def, &mut registries, 0x1000, 0x111, 1);
    assert_eq!(end.at, ModuleCall::Done);
    assert_eq!(end.cached, 0x111);
}

#[test]
fn windows_stable_api_refuses_a_second_initialization() {
    let build = BuildConfig { windows: true, ..abi3(9) };
    let mut def = definition(build);
    let mut registries: Registries<usize> = Registries::new();
    registries.create_registry(0x1000);
    registries.create_registry(0x2000);
    // one that fails does not count
    assert_eq!(make(&mut def, &mut registries, 0x1000, 0x111, 0).1.at, ModuleCall::Failed);
    assert_eq!(make(&mut def, &mut registries, 0x1000, 0x111, 1).1.at, ModuleCall::Done);
    // refused outright, whichever interpreter asks
    match def.make_module(b"3.9.0") {
        Err(message) => assert_eq!(message, SECOND_INITIALIZATION),
        Ok(_) => panic!("it must be refused"),
    }
    // also once the first interpreter is gone
    let mut count = AttachCount { cell: Some(0) };
    let (guard, modules) = registries.drop_registry(&mut count, 0x1000).unwrap();
    assert_eq!(modules, vec![0x111]);
    guard.release(&mut count);
    assert!(def.make_module(b"3.9.0").is_err());
    // PyPy and GraalPy, and Python 3.10, do not refuse it
    for other in [
        BuildConfig { alternative_impl: true, ..build },
        BuildConfig { py_minor: 10, ..build },
        BuildConfig { windows: false, ..build },
    ] {
        let mut def = definition(other);
        make(&mut def, &mut registries, 0x2000, 0x222, 1);
        assert!(def.make_module(b"3.9.0").is_ok());
    }
}

#[test]
fn everything_behind_the_slots_is_zeroed() {
    let build = config(15);
    let slots = PyModuleSlotsBuilder::new(build).with_name(NAME).with_mod_exec(EXEC).build();
    let secondary = secondary_slots(&build, &slots);
    let def = ModuleDef::new(build, NAME, DOC, slots, secondary);
    let array = def.get_slots();
    assert_eq!(array.len(), 7);
    assert_eq!(array[0], slot(SlotId::Name, SlotForm::StaticData, SlotValue::Address(NAME)));
    assert_eq!(array[1], slot(SlotId::Exec, SlotForm::Func, SlotValue::Address(EXEC)));
    for i in 2..7 {
        assert_eq!(array[i], zeroed_slot());
    }
}

#[test]
fn additions() {
    assert_eq!(AddTypeToModule::<u8>::new().add_to_module(), Addition::Type);
    assert_eq!(AddClassToModule::<u8>::new().add_to_module(), Addition::Class);
    assert_eq!(PyFunctionDef { method: 0x3e }.add_to_module(), Addition::Function(0x3e));
    assert_eq!(definition(config(14)).add_to_module(), Addition::Submodule);
}

#[test]
fn a_patch_is_made_once() {
    let mut def = definition(abi3(10));
    def.patch_multiple_interpreters_slot(b"3.12.0");
    def.patch_multiple_interpreters_slot(b"3.11.0");
    let mut other = definition(abi3(10));
    assert_eq!(initialized(&mut def, b"3.11.0"), initialized(&mut other, b"3.12.0"));
    let declared = initialized(&mut def, b"3.11.0");
    assert!(declared.iter().any(|slot| slot.id == SlotId::MultipleInterpreters));
    assert!(!declared.iter().any(|slot| slot.id == SlotId::MultipleInterpretersPlaceholder));
}
