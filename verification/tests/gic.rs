use gic_core::{CPUTarget, GicError, GicGeneric, GicResult, IntId, Trigger};
use std::cell::RefCell;

/// A controller that lives in memory.
struct Board {
    enabled: Vec<bool>,
    priority: Vec<usize>,
    trigger: Vec<Trigger>,
    route: Vec<u32>,
    pending: RefCell<Vec<IntId>>,
    active: RefCell<Vec<IntId>>,
    cores_set_up: RefCell<usize>,
}

impl Board {
    fn new(size: usize) -> Self {
        Board {
            enabled: vec![false; size],
            priority: vec![0; size],
            trigger: vec![Trigger::Level; size],
            route: vec![0; size],
            pending: RefCell::new(Vec::new()),
            active: RefCell::new(Vec::new()),
            cores_set_up: RefCell::new(0),
        }
    }

    fn raise(&self, intid: IntId) {
        self.pending.borrow_mut().push(intid);
    }
}

impl GicGeneric for Board {
    fn get_and_acknowledge_interrupt(&self) -> Option<IntId> {
        let next = self.pending.borrow_mut().pop();
        if let Some(intid) = next {
            self.active.borrow_mut().push(intid);
        }
        next
    }

    fn end_interrupt(&self, intid: IntId) {
        self.active.borrow_mut().retain(|active| *active != intid);
    }

    fn irq_max_size(&self) -> usize {
        self.enabled.len()
    }

    fn irq_enable(&mut self, intid: IntId) {
        self.enabled[intid.to_u32() as usize] = true;
    }

    fn irq_disable(&mut self, intid: IntId) {
        self.enabled[intid.to_u32() as usize] = false;
    }

    fn set_priority(&mut self, intid: IntId, priority: usize) {
        self.priority[intid.to_u32() as usize] = priority;
    }

    fn set_trigger(&mut self, intid: IntId, trigger: Trigger) {
        self.trigger[intid.to_u32() as usize] = trigger;
    }

    fn set_bind_cpu(&mut self, intid: IntId, cpu_list: &[CPUTarget]) {
        if let Some(first) = cpu_list.first() {
            self.route[intid.to_u32() as usize] = first.affinity();
        }
    }

    fn current_cpu_setup(&self) {
        *self.cores_set_up.borrow_mut() += 1;
    }
}

fn configure(gic: &mut impl GicGeneric, intid: IntId) -> usize {
    gic.current_cpu_setup();
    gic.set_priority(intid, 0xa0);
    gic.set_trigger(intid, Trigger::Edge);
    gic.set_bind_cpu(intid, &[CPUTarget { aff0: 2, aff1: 1, aff2: 0, aff3: 0 }]);
    gic.irq_enable(intid);
    gic.irq_max_size()
}

#[test]
fn a_driver_is_used_through_the_trait() {
    let mut board = Board::new(64);
    let uart = IntId::spi(1);
    assert_eq!(configure(&mut board, uart), 64);
    assert!(board.enabled[33]);
    assert_eq!(board.priority[33], 0xa0);
    assert_eq!(board.trigger[33], Trigger::Edge);
    assert_eq!(board.route[33], 0x0102);
    assert_eq!(*board.cores_set_up.borrow(), 1);
    board.irq_disable(uart);
    assert!(!board.enabled[33]);
}

#[test]
fn acknowledge_and_end() {
    let board = Board::new(64);
    assert!(board.get_and_acknowledge_interrupt().is_none());
    board.raise(IntId::ppi(14));
    let got = board.get_and_acknowledge_interrupt();
    assert!(got == Some(IntId::raw(30)));
    assert_eq!(board.active.borrow().len(), 1);
    board.end_interrupt(IntId::raw(30));
    assert!(board.active.borrow().is_empty());
    assert!(board.get_and_acknowledge_interrupt().is_none());
}

#[test]
fn trigger_values() {
    assert_eq!(Trigger::Edge, Trigger::Edge);
    assert_ne!(Trigger::Edge, Trigger::Level);
    let copy = Trigger::Level;
    assert_eq!(copy.clone(), Trigger::Level);
    assert_eq!(format!("{:?}", Trigger::Edge), "Edge");
    assert_eq!(format!("{:?}", Trigger::Level), "Level");
}

#[test]
fn error_values() {
    assert_eq!(format!("{:?}", GicError::Notimplemented), "Notimplemented");
    assert_eq!(format!("{:?}", GicError::Timeout.clone()), "Timeout");
}

fn wait_for_handshake(polls_left: usize) -> GicResult {
    if polls_left == 0 {
        Err(GicError::Timeout)
    } else {
        Ok(())
    }
}

fn read_feature(present: bool) -> GicResult<u32> {
    if present {
        Ok(7)
    } else {
        Err(GicError::Notimplemented)
    }
}

#[test]
fn results_carry_the_error_set() {
    assert!(wait_for_handshake(3).is_ok());
    assert!(matches!(wait_for_handshake(0), Err(GicError::Timeout)));
    assert!(matches!(read_feature(true), Ok(7)));
    assert!(matches!(read_feature(false), Err(GicError::Notimplemented)));
}
