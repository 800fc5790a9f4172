# bpm_portal

A small web portal around a BPMN process engine: users sign up and log in,
upload BPMN process definitions, start instances, look at an instance's
tokens, and complete user tasks.

`src/` is the verified library (Verus). It holds the decisions of the portal:

- `codec`: the text stored for instance states, token statuses and modes;
- `variables`: process variables, a map kept as pairs without repeated names;
- `model`: instances and tokens;
- `store`: what a save writes to the `process_instances` and `tokens` tables,
  what a load makes of the rows it reads, and the parameters of the guarded
  token updates;
- `definition`: the node kinds of a compiled definition;
- `auth`: who a session names;
- `processes`: upload, start, instance page, advance, lists, deletes;
- `errors`, `reply`: what each failure is answered;
- `config`, `nav`: settings decisions and the navigation bar;
- `adapters`: the calls into `uuid`, `time`, `serde_json`, `bpm-engine-bpmn`
  and `pavex::http`, each with the contract it is trusted to meet.

`app/` is the server: Pavex handlers, SQL, sessions, templates and the
engine's store traits, handing plain values to the library and back.
