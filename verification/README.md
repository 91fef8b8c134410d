# lagarto_ctrl

The control core of a lawn-watering controller, verified with Verus.

- `src/` is the verified library: the watering state machine (`engine`,
  `states`, `exec_cmds`, `sector_queue`), the cycle bookkeeping (`cycle`,
  `std_cycles`, `first_cycle`, `cycle_type`), the application of a client's
  cycles (`cycle_sync`), the timeline of a cycle's sector runs (`run_plan`),
  the parts of the topic a device publishes on (`shelly_topic`),
  the devices and valves (`actuator`, `devices`, `valve`, `valve_state`), the
  message broker's subscription table (`broker`, `subscriber`), the MQTT link
  decisions (`mqtt_link`, `cache`), the client requests (`client`), the
  database maintenance schedule (`db_maint`) and the errors (`errors`).  The
  laws of the state machine are in `laws`; the others stand beside the
  functions they are about.
- `app/` is the unverified glue: HTTP calls to the devices, database queries,
  the MQTT client, the broker's queues and thread, the serialised forms of the
  data, and the water balance computed in floating point.  It also runs the
  command loop (`engine.rs`: each step is decided by the library, the plant
  carries out its action), gives the library the next events of the client's
  cycles and saves what changed (`client_sync.rs`), and computes the sector
  durations when a cycle starts or resumes (`plant.rs`), handing the run
  bookkeeping and the timeline to the library.
- `tests/` exercises the library on concrete values.
