use andromeda_core::load_extensions;
use andromeda_core::recommended_builtins;
use andromeda_core::recommended_extensions;
use andromeda_core::Elapsed;
use andromeda_core::Extension;
use andromeda_core::ExtensionOp;
use andromeda_core::HostData;
use andromeda_core::OpsStorage;
use andromeda_core::PerformanceExt;
use andromeda_core::StorageInit;

#[test]
fn builtins_are_console_then_mod() {
    assert_eq!(recommended_builtins(), vec!["namespace/console.ts", "namespace/mod.ts"]);
}

#[test]
fn performance_extension_has_one_operation() {
    let extension = PerformanceExt::new_extension("now");
    assert_eq!(extension.name, "performance");
    assert_eq!(extension.ops.len(), 1);
    assert_eq!(extension.ops[0].name, "internal_now");
    assert_eq!(extension.ops[0].function, "now");
    assert_eq!(extension.ops[0].args, 0);
    assert_eq!(extension.storage, Some(StorageInit::Performance));
}

#[test]
fn recommended_extensions_are_the_four_built_ins() {
    let console = vec![ExtensionOp::new("internal_print", 1u8, 1)];
    let fs = vec![
        ExtensionOp::new("internal_read_text_file", 2u8, 1),
        ExtensionOp::new("internal_write_text_file", 3u8, 2),
    ];
    let time = vec![
        ExtensionOp::new("internal_set_timeout", 4u8, 2),
        ExtensionOp::new("internal_clear_timeout", 5u8, 1),
    ];
    let extensions = recommended_extensions(console, fs, time, 6u8);
    let names: Vec<&str> = extensions.iter().map(|extension| extension.name).collect();
    assert_eq!(names, vec!["console", "fs", "time", "performance"]);
    for first in 0..names.len() {
        for second in first + 1..names.len() {
            assert_ne!(names[first], names[second]);
        }
    }
    let functions: Vec<Vec<u8>> = extensions
        .iter()
        .map(|extension| extension.ops.iter().map(|op| op.function).collect())
        .collect();
    assert_eq!(functions, vec![vec![1], vec![2, 3], vec![4, 5], vec![6]]);
    assert_eq!(extensions[1].ops[1].name, "internal_write_text_file");
    assert_eq!(extensions[1].ops[1].args, 2);
    assert_eq!(extensions[0].storage, None);
    assert_eq!(extensions[1].storage, None);
    assert_eq!(extensions[2].storage, None);
    assert_eq!(extensions[3].storage, Some(StorageInit::Performance));
    assert_eq!(extensions[3].ops[0].name, "internal_now");
    assert_eq!(extensions[3].ops[0].args, 0);
}

#[test]
fn recommended_extensions_take_empty_sets_of_operations() {
    let extensions = recommended_extensions(Vec::new(), Vec::new(), Vec::new(), 'n');
    assert_eq!(extensions.len(), 4);
    assert!(extensions[0].ops.is_empty());
    assert!(extensions[1].ops.is_empty());
    assert!(extensions[2].ops.is_empty());
    assert_eq!(extensions[3].ops.len(), 1);
    assert_eq!(extensions[3].ops[0].function, 'n');
}

#[test]
fn recommended_extensions_load_in_their_order() {
    let mut storage = OpsStorage::new();
    let extensions = recommended_extensions(
        vec![ExtensionOp::new("internal_print", 1u8, 1)],
        vec![ExtensionOp::new("internal_read_text_file", 2u8, 1)],
        vec![ExtensionOp::new("internal_set_timeout", 3u8, 2)],
        4u8,
    );
    let ops = load_extensions(extensions, &mut storage);
    let names: Vec<&str> = ops.iter().map(|op| op.name).collect();
    assert_eq!(
        names,
        vec!["internal_print", "internal_read_text_file", "internal_set_timeout", "internal_now"]
    );
    assert!(PerformanceExt::resource(&storage).is_some());
}

#[test]
fn operation_keeps_what_it_was_made_of() {
    let op = ExtensionOp::new("read_text_file", 3u16, 1);
    assert_eq!(op.name, "read_text_file");
    assert_eq!(op.function, 3);
    assert_eq!(op.args, 1);
}

#[test]
fn empty_storage_holds_no_resource() {
    let mut storage = OpsStorage::new();
    assert!(PerformanceExt::resource(&storage).is_none());
    assert_eq!(PerformanceExt::try_internal_now(&storage), None);
    PerformanceExt::init_storage(&mut storage);
    let elapsed = PerformanceExt::try_internal_now(&storage).unwrap();
    assert!(elapsed.subsec_nanos < 1_000_000_000);
}

#[test]
fn loading_seeds_the_storage_once() {
    let mut storage = OpsStorage::new();
    let ops = PerformanceExt::new_extension(1u8).load(&mut storage);
    assert_eq!(ops.len(), 1);
    assert_eq!(ops[0].name, "internal_now");
    let first = PerformanceExt::resource(&storage).unwrap().start_time;
    // A second seed replaces the first: the storage holds one value of a type.
    PerformanceExt::init_storage(&mut storage);
    let second = PerformanceExt::resource(&storage).unwrap().start_time;
    assert!(second >= first);
}

#[test]
fn extension_without_a_seed_leaves_the_storage() {
    let mut storage = OpsStorage::new();
    let extension = Extension {
        name: "console",
        ops: vec![ExtensionOp::new("internal_print", 'p', 1)],
        storage: None,
    };
    let ops = extension.load(&mut storage);
    assert_eq!(ops.len(), 1);
    assert_eq!(ops[0].function, 'p');
    assert!(PerformanceExt::resource(&storage).is_none());
}

#[test]
fn extensions_load_in_registration_order() {
    let mut storage = OpsStorage::new();
    let extensions = vec![
        Extension {
            name: "console",
            ops: vec![ExtensionOp::new("internal_print", 10u8, 1)],
            storage: None,
        },
        Extension { name: "empty", ops: vec![], storage: None },
        PerformanceExt::new_extension(20u8),
        Extension {
            name: "fs",
            ops: vec![
                ExtensionOp::new("internal_read_text_file", 30u8, 1),
                ExtensionOp::new("internal_write_text_file", 31u8, 2),
            ],
            storage: None,
        },
    ];
    let ops = load_extensions(extensions, &mut storage);
    let names: Vec<&str> = ops.iter().map(|op| op.name).collect();
    assert_eq!(
        names,
        vec![
            "internal_print",
            "internal_now",
            "internal_read_text_file",
            "internal_write_text_file",
        ]
    );
    let functions: Vec<u8> = ops.iter().map(|op| op.function).collect();
    assert_eq!(functions, vec![10, 20, 30, 31]);
    let arities: Vec<u32> = ops.iter().map(|op| op.args).collect();
    assert_eq!(arities, vec![1, 0, 1, 2]);
    assert!(PerformanceExt::resource(&storage).is_some());
}

#[test]
fn no_extensions_bind_nothing() {
    let mut storage = OpsStorage::new();
    let ops = load_extensions(Vec::<Extension<u8>>::new(), &mut storage);
    assert!(ops.is_empty());
    assert!(PerformanceExt::resource(&storage).is_none());
}

#[test]
fn clock_reads_a_fraction_below_one_second() {
    let mut storage = OpsStorage::new();
    PerformanceExt::init_storage(&mut storage);
    let first = PerformanceExt::internal_now(&storage);
    assert!(first.subsec_nanos < 1_000_000_000);
    let mut spin = 0u64;
    for i in 0..2_000_000u64 {
        spin = spin.wrapping_add(i);
    }
    assert!(spin > 0);
    let second = PerformanceExt::internal_now(&storage);
    assert!(second.subsec_nanos < 1_000_000_000);
    assert!((second.seconds, second.subsec_nanos) >= (first.seconds, first.subsec_nanos));
    assert!(second.seconds < 60);
    let direct = PerformanceExt::elapsed_since(PerformanceExt::resource(&storage).unwrap());
    assert!((direct.seconds, direct.subsec_nanos) >= (second.seconds, second.subsec_nanos));
}

#[test]
fn host_storage_is_reached_through_the_host() {
    let (mut host, _rx) = HostData::<u32>::new();
    assert!(PerformanceExt::resource(host.storage()).is_none());
    PerformanceExt::init_storage(host.storage_mut());
    assert!(PerformanceExt::resource(host.storage()).is_some());
    let now = PerformanceExt::internal_now(host.storage());
    assert!(now.subsec_nanos < 1_000_000_000);
}

#[test]
fn elapsed_splits_into_milliseconds_and_rest() {
    let elapsed = Elapsed { seconds: 2, subsec_nanos: 1_500_000 };
    assert_eq!(elapsed.millis(), 2001);
    assert_eq!(elapsed.submilli_nanos(), 500_000);
    let zero = Elapsed { seconds: 0, subsec_nanos: 0 };
    assert_eq!(zero.millis(), 0);
    assert_eq!(zero.submilli_nanos(), 0);
    let below = Elapsed { seconds: 0, subsec_nanos: 999_999 };
    assert_eq!(below.millis(), 0);
    assert_eq!(below.submilli_nanos(), 999_999);
    let full = Elapsed { seconds: 1, subsec_nanos: 999_999_999 };
    assert_eq!(full.millis(), 1999);
    assert_eq!(full.submilli_nanos(), 999_999);
    let longest = Elapsed { seconds: u64::MAX, subsec_nanos: 999_999_999 };
    assert_eq!(longest.millis(), 18_446_744_073_709_551_615_999);
    assert_eq!(longest.submilli_nanos(), 999_999);
}
