use named_lock::unix::{flock_outcome, Failure, Operation, Step};
use named_lock::{Error, NamedLock, NamedLockGuard, Opening, Platform, Registry, Result};

/// The lock file of one name as the operating system keeps it: free, or
/// locked through the descriptor of one process.
struct LockFile {
    holder: Option<u32>,
}

impl LockFile {
    /// One lock call of `process`, answered as the operating system does for
    /// calls that do not wait, and decided by the library.
    fn call(&mut self, process: u32, operation: Operation) -> Result<()> {
        let (rc, failure) = match operation {
            Operation::Release => {
                if self.holder == Some(process) {
                    self.holder = None;
                }
                (0, Failure::Other)
            }
            Operation::TryAcquire | Operation::Acquire => match self.holder {
                Some(holder) if holder != process => (-1, Failure::WouldBlock),
                _ => {
                    self.holder = Some(process);
                    (0, Failure::Other)
                }
            },
        };
        match flock_outcome(operation, rc, failure) {
            Step::Done(outcome) => outcome,
            Step::Retry => panic!("nothing interrupts these calls"),
        }
    }
}

/// One process: its own registry and its number.
struct Process {
    number: u32,
    registry: Registry,
}

impl Process {
    fn new(number: u32) -> Process {
        Process { number, registry: Registry::new() }
    }

    fn create(&mut self, name: &str) -> Result<NamedLock> {
        let platform = Platform::Unix { temp_dir: None };
        match NamedLock::create(&mut self.registry, &platform, name)? {
            Opening::Shared(lock) => Ok(lock),
            Opening::Create(creation) => creation.complete(&mut self.registry, Ok(())),
        }
    }

    fn try_lock(&mut self, lock: &NamedLock, file: &mut LockFile) -> Result<NamedLockGuard> {
        let acquisition = lock.try_lock(&mut self.registry)?;
        let outcome = file.call(self.number, Operation::TryAcquire);
        acquisition.complete(&mut self.registry, outcome).result
    }

    fn unlock(&mut self, guard: NamedLockGuard, file: &mut LockFile) -> bool {
        let unlocked = file.call(self.number, Operation::Release);
        guard.release(&mut self.registry, unlocked)
    }
}

#[test]
fn two_processes_take_turns() {
    let mut file = LockFile { holder: None };
    let mut first = Process::new(1);
    let mut second = Process::new(2);
    let lock_of_first = first.create("x").unwrap();
    let lock_of_second = second.create("x").unwrap();

    let guard = first.try_lock(&lock_of_first, &mut file).unwrap();
    assert_eq!(file.holder, Some(1));

    // While the first process holds the lock, the second is told so by the
    // operating system, and keeps nothing.
    assert!(matches!(
        second.try_lock(&lock_of_second, &mut file),
        Err(Error::WouldBlock)
    ));
    assert!(matches!(
        second.try_lock(&lock_of_second, &mut file),
        Err(Error::WouldBlock)
    ));
    assert_eq!(file.holder, Some(1));

    // The first process is told by its own registry.
    assert!(matches!(
        first.try_lock(&lock_of_first, &mut file),
        Err(Error::WouldBlock)
    ));

    // Once the first has released, the second succeeds at once.
    assert!(!first.unlock(guard, &mut file));
    assert_eq!(file.holder, None);
    let guard = second.try_lock(&lock_of_second, &mut file).unwrap();
    assert_eq!(file.holder, Some(2));
    assert!(matches!(
        first.try_lock(&lock_of_first, &mut file),
        Err(Error::WouldBlock)
    ));
    assert!(!second.unlock(guard, &mut file));
    assert!(first.try_lock(&lock_of_first, &mut file).is_ok());
}

#[test]
fn locks_of_two_names_are_held_together_across_processes() {
    let mut file_x = LockFile { holder: None };
    let mut file_y = LockFile { holder: None };
    let mut first = Process::new(1);
    let mut second = Process::new(2);
    let x = first.create("x").unwrap();
    let y = second.create("y").unwrap();
    let guard_x = first.try_lock(&x, &mut file_x).unwrap();
    let guard_y = second.try_lock(&y, &mut file_y).unwrap();
    assert_eq!(file_x.holder, Some(1));
    assert_eq!(file_y.holder, Some(2));
    assert!(!first.unlock(guard_x, &mut file_x));
    assert!(!second.unlock(guard_y, &mut file_y));
}
