# html_panel

A small web page builder, the state of the server that shows the page, and the
data model of a dashboard that watches a node process and the machine it runs
on.

- `src/html/`: lines of indented text (`RawHtml`), the head, body and script
  blocks of a page, its elements, and `Html::build`, each with the exact text
  it writes stated as a spec function.
- `src/state.rs`: the page server's state; a click asks the browser to reload,
  a poll answers that once.
- `src/node.rs`: a node's settings and process, and when it may be started or
  stopped.
- `src/os.rs`: what the dashboard keeps of one reading of the machine.
- `app/`: the two HTTP servers, reading the machine, spawning processes and
  writing JSON.
